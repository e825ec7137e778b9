//! Model descriptions and the resolution of a short alias to a full model id.
use vstd::prelude::*;
use crate::table::Table;

verus! {

/// What `str::to_lowercase` makes of a text.
pub uninterp spec fn lower_of(s: Seq<char>) -> Seq<char>;

/// Relies on str::to_lowercase: the lowercase form of each character, which
/// depends on the text alone; the empty text stays empty.
#[verifier::external_body]
fn lowercase(s: &str) -> (r: String)
    ensures
        r@ == lower_of(s@),
        s@.len() == 0 ==> r@.len() == 0,
{
    s.to_lowercase()
}

/// Information about one model.
pub struct ModelInfo {
    pub id: String,
    pub display_name: String,
    pub family: String,
    pub release_date: String,
    pub aliases: Vec<String>,
}

/// The model catalogue.
pub struct ModelConfig {
    pub version: String,
    pub default_model: String,
    pub models: Vec<ModelInfo>,
}

/// Lowercased names (ids and aliases) mapped to full model ids.
pub struct ModelAliases {
    table: Table<String>,
}

impl View for ModelAliases {
    type V = Map<Seq<char>, String>;

    closed spec fn view(&self) -> Map<Seq<char>, String> {
        self.table@
    }
}

/// The full id that `name` resolves to: the entry of its lowercase form, or
/// `name` itself when there is none.
pub open spec fn resolve(m: Map<Seq<char>, String>, name: Seq<char>) -> Seq<char> {
    if m.contains_key(lower_of(name)) {
        m[lower_of(name)]@
    } else {
        name
    }
}

/// The names a model answers to, each with the model's id: its own id first,
/// then its aliases in order.
pub open spec fn model_entries(m: ModelInfo) -> Seq<(Seq<char>, String)> {
    seq![(lower_of(m.id@), m.id)] + m.aliases@.map_values(|a: String| (lower_of(a@), m.id))
}

pub open spec fn all_entries(models: Seq<ModelInfo>) -> Seq<(Seq<char>, String)>
    decreases models.len(),
{
    if models.len() == 0 {
        Seq::empty()
    } else {
        all_entries(models.drop_last()) + model_entries(models.last())
    }
}

/// The map after inserting `es` in order; a later entry replaces an earlier one.
pub open spec fn insert_all(es: Seq<(Seq<char>, String)>) -> Map<Seq<char>, String>
    decreases es.len(),
{
    if es.len() == 0 {
        Map::empty()
    } else {
        insert_all(es.drop_last()).insert(es.last().0, es.last().1)
    }
}

impl ModelAliases {
    pub closed spec fn wf(&self) -> bool {
        self.table.wf()
    }
}

/// Builds the alias map of a catalogue: each model's id and each of its
/// aliases, lowercased, map to the model's id.
pub fn get_alias_map(config: &ModelConfig) -> (r: ModelAliases)
    ensures
        r.wf(),
        r@ == insert_all(all_entries(config.models@)),
{
    let mut table: Table<String> = Table::new();
    let ghost mut es: Seq<(Seq<char>, String)> = Seq::empty();
    let mut i: usize = 0;
    assert(config.models@.take(0) =~= Seq::<ModelInfo>::empty());
    assert(table@ =~= insert_all(es));
    while i < config.models.len()
        invariant
            i <= config.models@.len(),
            table.wf(),
            table@ == insert_all(es),
            es == all_entries(config.models@.take(i as int)),
        decreases config.models@.len() - i,
    {
        let model = &config.models[i];
        let ghost before = es;
        table.insert(lowercase(model.id.as_str()), model.id.clone());
        proof {
            es = es.push((lower_of(model.id@), model.id));
            assert(es.drop_last() =~= before);
        }
        let mut j: usize = 0;
        while j < model.aliases.len()
            invariant
                i < config.models@.len(),
                *model == config.models@[i as int],
                j <= model.aliases@.len(),
                table.wf(),
                table@ == insert_all(es),
                es == before + seq![(lower_of(model.id@), model.id)] + model.aliases@.take(
                    j as int,
                ).map_values(|a: String| (lower_of(a@), model.id)),
            decreases model.aliases@.len() - j,
        {
            let ghost prev = es;
            table.insert(lowercase(model.aliases[j].as_str()), model.id.clone());
            proof {
                es = es.push((lower_of(model.aliases@[j as int]@), model.id));
                assert(es.drop_last() =~= prev);
                assert(model.aliases@.take(j + 1).map_values(|a: String| (lower_of(a@), model.id))
                    =~= model.aliases@.take(j as int).map_values(
                    |a: String| (lower_of(a@), model.id),
                ).push((lower_of(model.aliases@[j as int]@), model.id)));
            }
            j = j + 1;
        }
        proof {
            assert(model.aliases@.take(j as int) =~= model.aliases@);
            assert(config.models@.take(i + 1).drop_last() =~= config.models@.take(i as int));
            assert(config.models@.take(i + 1).last() == config.models@[i as int]);
            assert(es =~= all_entries(config.models@.take(i + 1)));
        }
        i = i + 1;
    }
    assert(config.models@.take(i as int) =~= config.models@);
    ModelAliases { table }
}

/// Resolves a model name (an alias, a short name or a full id, in any case)
/// to its full id; an unknown name passes through unchanged.
pub fn normalize_model_name(aliases: &ModelAliases, model_name: &str) -> (r: String)
    requires
        aliases.wf(),
    ensures
        r@ == resolve(aliases@, model_name@),
{
    let key = lowercase(model_name);
    match aliases.table.get(key.as_str()) {
        Some(full_id) => full_id.clone(),
        None => String::from_str(model_name),
    }
}

/// `normalize_model_name` on an optional name.
pub fn normalize_model_option(aliases: &ModelAliases, model: Option<String>) -> (r: Option<String>)
    requires
        aliases.wf(),
    ensures
        match model {
            Some(m) => r is Some && r->0@ == resolve(aliases@, m@),
            None => r is None,
        },
{
    match model {
        Some(m) => Some(normalize_model_name(aliases, m.as_str())),
        None => None,
    }
}

/// Two model descriptions with the same texts.
pub open spec fn same_model(a: ModelInfo, b: ModelInfo) -> bool {
    &&& a.id@ == b.id@
    &&& a.display_name@ == b.display_name@
    &&& a.family@ == b.family@
    &&& a.release_date@ == b.release_date@
    &&& a.aliases@.map_values(|s: String| s@) == b.aliases@.map_values(|s: String| s@)
}

fn copy_model(m: &ModelInfo) -> (r: ModelInfo)
    ensures
        same_model(r, *m),
{
    let mut aliases: Vec<String> = Vec::new();
    let mut i: usize = 0;
    while i < m.aliases.len()
        invariant
            i <= m.aliases@.len(),
            aliases@.map_values(|s: String| s@) == m.aliases@.take(i as int).map_values(|s: String| s@),
        decreases m.aliases@.len() - i,
    {
        let ghost prev = aliases@;
        let c = m.aliases[i].clone();
        aliases.push(c);
        assert(aliases@.map_values(|s: String| s@) =~= prev.map_values(|s: String| s@).push(c@));
        assert(m.aliases@.take(i + 1) =~= m.aliases@.take(i as int).push(m.aliases@[i as int]));
        assert(m.aliases@.take(i + 1).map_values(|s: String| s@) =~= m.aliases@.take(i as int).map_values(
            |s: String| s@,
        ).push(m.aliases@[i as int]@));
        i = i + 1;
    }
    assert(m.aliases@.take(i as int) =~= m.aliases@);
    ModelInfo {
        id: m.id.clone(),
        display_name: m.display_name.clone(),
        family: m.family.clone(),
        release_date: m.release_date.clone(),
        aliases,
    }
}

/// Every model of the catalogue, in order.
pub fn get_all_models(config: &ModelConfig) -> (r: Vec<ModelInfo>)
    ensures
        r@.len() == config.models@.len(),
        forall|i: int| 0 <= i < r@.len() ==> same_model(#[trigger] r@[i], config.models@[i]),
{
    let mut out: Vec<ModelInfo> = Vec::new();
    let mut i: usize = 0;
    while i < config.models.len()
        invariant
            i <= config.models@.len(),
            out@.len() == i,
            forall|k: int| 0 <= k < i ==> same_model(#[trigger] out@[k], config.models@[k]),
        decreases config.models@.len() - i,
    {
        out.push(copy_model(&config.models[i]));
        i = i + 1;
    }
    out
}

/// The catalogue's default model id.
pub fn get_default_model(config: &ModelConfig) -> (r: String)
    ensures
        r@ == config.default_model@,
{
    config.default_model.clone()
}

} // verus!
