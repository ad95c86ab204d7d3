//! The global symbol database: one authoritative mapping from symbol name
//! to its chosen defining input, built across all inputs in link-command
//! order. Strong definitions beat weak ones; among equal strengths the
//! earliest registration wins, mirroring classic left-to-right archive
//! precedence. Workers may collect per-file registrations in parallel, but
//! they are merged in fixed link-command order, never in completion order.

use vstd::prelude::*;
use crate::errors::LinkError;

verus! {

/// How strongly a symbol is defined.
#[derive(Clone, Copy, Debug, PartialEq, Eq, Structural)]
pub enum SymbolStrength {
    Strong,
    Weak,
}

/// The precedence rank of a definition strength (higher wins).
pub open spec fn strength_rank(s: SymbolStrength) -> int {
    match s {
        SymbolStrength::Strong => 2,
        SymbolStrength::Weak => 1,
    }
}

/// One exported symbol of one input file, to be registered with the
/// database. `file_id` is the input's index in link-command order.
#[derive(Debug, PartialEq, Eq)]
pub struct SymbolDef {
    pub name: String,
    pub file_id: usize,
    pub strength: SymbolStrength,
}

impl Clone for SymbolDef {
    /// The copy carries the same name, file and strength.
    fn clone(&self) -> (r: Self)
        ensures
            r@ == self@,
    {
        SymbolDef { name: self.name.clone(), file_id: self.file_id, strength: self.strength }
    }
}

/// Spec-level shape of a `SymbolDef`.
#[verifier::ext_equal]
pub struct SymbolDefV {
    pub name: Seq<char>,
    pub file_id: usize,
    pub strength: SymbolStrength,
}

impl View for SymbolDef {
    type V = SymbolDefV;

    open spec fn view(&self) -> SymbolDefV {
        SymbolDefV { name: self.name@, file_id: self.file_id, strength: self.strength }
    }
}

/// One reference to a symbol by name, from the input `file_id`.
#[derive(Debug, Clone, PartialEq, Eq)]
pub struct SymbolRef {
    pub name: String,
    pub file_id: usize,
}

/// Spec-level shape of a `SymbolRef`.
#[verifier::ext_equal]
pub struct SymbolRefV {
    pub name: Seq<char>,
    pub file_id: usize,
}

impl View for SymbolRef {
    type V = SymbolRefV;

    open spec fn view(&self) -> SymbolRefV {
        SymbolRefV { name: self.name@, file_id: self.file_id }
    }
}

/// The database's chosen definition for one name. `symbol_id` is the
/// winning registration's index in global registration order: ids are
/// stable for the whole link and key every resolution table.
#[derive(Debug, Clone, PartialEq, Eq)]
pub struct SymbolEntry {
    pub name: String,
    pub symbol_id: usize,
    pub file_id: usize,
    pub strength: SymbolStrength,
}

/// Spec-level shape of a `SymbolEntry`.
#[verifier::ext_equal]
pub struct SymbolEntryV {
    pub name: Seq<char>,
    pub symbol_id: usize,
    pub file_id: usize,
    pub strength: SymbolStrength,
}

impl View for SymbolEntry {
    type V = SymbolEntryV;

    open spec fn view(&self) -> SymbolEntryV {
        SymbolEntryV {
            name: self.name@,
            symbol_id: self.symbol_id,
            file_id: self.file_id,
            strength: self.strength,
        }
    }
}

/// The mapping a sequence of entries with distinct names represents.
pub open spec fn map_of(entries: Seq<SymbolEntryV>) -> Map<Seq<char>, SymbolEntryV>
    decreases entries.len(),
{
    if entries.len() == 0 {
        Map::empty()
    } else {
        map_of(entries.drop_last()).insert(entries.last().name, entries.last())
    }
}

/// No two entries share a name.
pub open spec fn distinct_names(entries: Seq<SymbolEntryV>) -> bool {
    forall|i: int, j: int|
        0 <= i < j < entries.len() ==> entries[i].name != entries[j].name
}

/// A name is in the represented map exactly when some entry carries it.
pub proof fn lemma_map_of_contains(entries: Seq<SymbolEntryV>, name: Seq<char>)
    ensures
        map_of(entries).contains_key(name) <==> exists|i: int|
            0 <= i < entries.len() && entries[i].name == name,
    decreases entries.len(),
{
    if entries.len() > 0 {
        lemma_map_of_contains(entries.drop_last(), name);
        if map_of(entries).contains_key(name) && entries.last().name != name {
            let i = choose|i: int|
                0 <= i < entries.drop_last().len() && entries.drop_last()[i].name == name;
            assert(entries[i].name == name);
        }
        if exists|i: int| 0 <= i < entries.len() && entries[i].name == name {
            let i = choose|i: int| 0 <= i < entries.len() && entries[i].name == name;
            if i < entries.len() - 1 {
                assert(entries.drop_last()[i].name == name);
            }
        }
    }
}

/// With distinct names, the entry holding a name is the map's value at it.
pub proof fn lemma_map_of_index(entries: Seq<SymbolEntryV>, j: int)
    requires
        distinct_names(entries),
        0 <= j < entries.len(),
    ensures
        map_of(entries).contains_key(entries[j].name),
        map_of(entries)[entries[j].name] == entries[j],
    decreases entries.len(),
{
    if j == entries.len() - 1 {
    } else {
        assert(distinct_names(entries.drop_last()));
        assert(entries.drop_last()[j] == entries[j]);
        lemma_map_of_index(entries.drop_last(), j);
        assert(entries[j].name != entries.last().name);
    }
}

/// Updating the entry that holds a name is an insert on the map.
pub proof fn lemma_map_of_update(entries: Seq<SymbolEntryV>, j: int, e: SymbolEntryV)
    requires
        distinct_names(entries),
        0 <= j < entries.len(),
        entries[j].name == e.name,
    ensures
        map_of(entries.update(j, e)) =~= map_of(entries).insert(e.name, e),
    decreases entries.len(),
{
    let upd = entries.update(j, e);
    if j == entries.len() - 1 {
        assert(upd.drop_last() =~= entries.drop_last());
    } else {
        assert(distinct_names(entries.drop_last()));
        assert(entries.drop_last()[j] == entries[j]);
        lemma_map_of_update(entries.drop_last(), j, e);
        assert(upd.drop_last() =~= entries.drop_last().update(j, e));
        assert(upd.last() == entries.last());
        assert(entries[j].name != entries.last().name);
    }
}

/// What registering one definition under the id `id` does to the database:
/// an unseen name is added; a seen name is replaced only by a strictly
/// stronger definition, so on a tie in strength the earliest registration
/// is kept.
pub open spec fn spec_register(
    m: Map<Seq<char>, SymbolEntryV>,
    def: SymbolDefV,
    id: usize,
) -> Map<Seq<char>, SymbolEntryV> {
    if !m.contains_key(def.name) {
        m.insert(
            def.name,
            SymbolEntryV {
                name: def.name,
                symbol_id: id,
                file_id: def.file_id,
                strength: def.strength,
            },
        )
    } else if strength_rank(def.strength) > strength_rank(m[def.name].strength) {
        m.insert(
            def.name,
            SymbolEntryV {
                name: def.name,
                symbol_id: id,
                file_id: def.file_id,
                strength: def.strength,
            },
        )
    } else {
        m
    }
}

/// The database after registering `defs` in order, each under its index as
/// its symbol id.
pub open spec fn spec_build(defs: Seq<SymbolDefV>) -> Map<Seq<char>, SymbolEntryV>
    decreases defs.len(),
{
    if defs.len() == 0 {
        Map::empty()
    } else {
        spec_register(spec_build(defs.drop_last()), defs.last(), (defs.len() - 1) as usize)
    }
}

/// The global symbol table. Mutated only during the single resolution
/// pass; read-only afterwards.
#[derive(Debug, Clone, PartialEq, Eq)]
pub struct SymbolDatabase {
    pub entries: Vec<SymbolEntry>,
}

impl View for SymbolDatabase {
    type V = Map<Seq<char>, SymbolEntryV>;

    open spec fn view(&self) -> Map<Seq<char>, SymbolEntryV> {
        map_of(self.entries@.map_values(|e: SymbolEntry| e@))
    }
}

impl SymbolDatabase {
    /// The entries' names never repeat.
    pub open spec fn wf(self) -> bool {
        distinct_names(self.entries@.map_values(|e: SymbolEntry| e@))
    }

    /// An empty database.
    pub fn new() -> (db: SymbolDatabase)
        ensures
            db@ =~= Map::<Seq<char>, SymbolEntryV>::empty(),
            db.wf(),
    {
        let db = SymbolDatabase { entries: Vec::new() };
        proof {
            assert(db.entries@.map_values(|e: SymbolEntry| e@) =~= Seq::<SymbolEntryV>::empty());
        }
        db
    }

    /// Finds the index of the entry holding `name`, if any.
    fn find_entry(&self, name: &String) -> (r: Option<usize>)
        requires
            self.wf(),
        ensures
            match r {
                Some(j) => j < self.entries@.len() && self.entries@[j as int]@.name == name@
                    && self@.contains_key(name@) && self@[name@] == self.entries@[j as int]@,
                None => !self@.contains_key(name@),
            },
    {
        let ghost views = self.entries@.map_values(|e: SymbolEntry| e@);
        let mut j: usize = 0;
        while j < self.entries.len()
            invariant
                j <= self.entries@.len(),
                views == self.entries@.map_values(|e: SymbolEntry| e@),
                distinct_names(views),
                forall|t: int| 0 <= t < j ==> views[t].name != name@,
            decreases self.entries@.len() - j,
        {
            if self.entries[j].name == *name {
                proof {
                    lemma_map_of_index(views, j as int);
                }
                return Some(j);
            }
            j = j + 1;
        }
        proof {
            lemma_map_of_contains(views, name@);
        }
        None
    }

    /// Registers one exported symbol under the id `id`; called once per
    /// exported symbol per input, in link-command order.
    pub fn register(&mut self, def: &SymbolDef, id: usize)
        requires
            old(self).wf(),
        ensures
            final(self)@ == spec_register(old(self)@, def@, id),
            final(self).wf(),
    {
        let ghost views0 = self.entries@.map_values(|e: SymbolEntry| e@);
        match self.find_entry(&def.name) {
            None => {
                let e = SymbolEntry {
                    name: def.name.clone(),
                    symbol_id: id,
                    file_id: def.file_id,
                    strength: def.strength,
                };
                self.entries.push(e);
                proof {
                    let views1 = self.entries@.map_values(|x: SymbolEntry| x@);
                    assert(views1 =~= views0.push(e@));
                    assert(views1.drop_last() =~= views0);
                    lemma_map_of_contains(views0, def.name@);
                    assert(distinct_names(views1));
                    assert(self@ =~= spec_register(map_of(views0), def@, id));
                }
            },
            Some(j) => {
                let stronger: bool = match (def.strength, self.entries[j].strength) {
                    (SymbolStrength::Strong, SymbolStrength::Weak) => true,
                    _ => false,
                };
                if stronger {
                    let e = SymbolEntry {
                        name: def.name.clone(),
                        symbol_id: id,
                        file_id: def.file_id,
                        strength: def.strength,
                    };
                    self.entries.set(j, e);
                    proof {
                        let views1 = self.entries@.map_values(|x: SymbolEntry| x@);
                        assert(views1 =~= views0.update(j as int, e@));
                        lemma_map_of_update(views0, j as int, e@);
                        assert(forall|t: int|
                            0 <= t < views1.len() ==> #[trigger] views1[t].name == views0[
                                t
                            ].name);
                        assert(distinct_names(views1));
                        assert(self@ =~= spec_register(map_of(views0), def@, id));
                    }
                } else {
                    proof {
                        assert(self@ =~= spec_register(map_of(views0), def@, id));
                    }
                }
            },
        }
    }

    /// Builds the whole database from the merged registration list, giving
    /// each registration its index as its symbol id.
    pub fn build(defs: &Vec<SymbolDef>) -> (db: SymbolDatabase)
        ensures
            db@ == spec_build(defs@.map_values(|d: SymbolDef| d@)),
            db.wf(),
    {
        let ghost dviews = defs@.map_values(|d: SymbolDef| d@);
        let mut db = SymbolDatabase::new();
        proof {
            assert(dviews.subrange(0, 0) =~= Seq::<SymbolDefV>::empty());
        }
        let mut k: usize = 0;
        while k < defs.len()
            invariant
                k <= defs@.len(),
                dviews == defs@.map_values(|d: SymbolDef| d@),
                db.wf(),
                db@ == spec_build(dviews.subrange(0, k as int)),
            decreases defs@.len() - k,
        {
            db.register(&defs[k], k);
            proof {
                let pre = dviews.subrange(0, k as int);
                let cur = dviews.subrange(0, k + 1 as int);
                assert(cur.drop_last() =~= pre);
                assert(cur.last() == dviews[k as int]);
            }
            k = k + 1;
        }
        proof {
            assert(dviews.subrange(0, dviews.len() as int) =~= dviews);
        }
        db
    }

    /// Resolves a name to its chosen symbol id; callable only after all
    /// registrations completed.
    pub fn resolve(&self, name: &String) -> (r: Option<usize>)
        requires
            self.wf(),
        ensures
            match r {
                Some(id) => self@.contains_key(name@) && self@[name@].symbol_id == id,
                None => !self@.contains_key(name@),
            },
    {
        match self.find_entry(name) {
            Some(j) => Some(self.entries[j].symbol_id),
            None => None,
        }
    }
}

/// All registrations of the per-file lists, concatenated in file order.
pub open spec fn concat_all(xs: Seq<Seq<SymbolDefV>>) -> Seq<SymbolDefV>
    decreases xs.len(),
{
    if xs.len() == 0 {
        Seq::empty()
    } else {
        concat_all(xs.drop_last()) + xs.last()
    }
}

/// The deterministic merge of per-file registration lists: workers may
/// have produced them in any completion order, but they are combined in
/// fixed link-command order, so the strength/tie-break rule never depends
/// on thread scheduling.
pub fn merge_registrations(per_file: &Vec<Vec<SymbolDef>>) -> (r: Vec<SymbolDef>)
    ensures
        r@.map_values(|d: SymbolDef| d@) == concat_all(
            per_file@.map_values(|v: Vec<SymbolDef>| v@.map_values(|d: SymbolDef| d@)),
        ),
{
    let ghost fviews = per_file@.map_values(|v: Vec<SymbolDef>| v@.map_values(|d: SymbolDef| d@));
    let mut out: Vec<SymbolDef> = Vec::new();
    proof {
        assert(fviews.subrange(0, 0) =~= Seq::<Seq<SymbolDefV>>::empty());
        assert(out@.map_values(|d: SymbolDef| d@) =~= concat_all(fviews.subrange(0, 0)));
    }
    let mut f: usize = 0;
    while f < per_file.len()
        invariant
            f <= per_file@.len(),
            fviews == per_file@.map_values(|v: Vec<SymbolDef>| v@.map_values(|d: SymbolDef| d@)),
            out@.map_values(|d: SymbolDef| d@) == concat_all(fviews.subrange(0, f as int)),
        decreases per_file@.len() - f,
    {
        let ghost out0 = out@.map_values(|d: SymbolDef| d@);
        let file = &per_file[f];
        let mut k: usize = 0;
        while k < file.len()
            invariant
                k <= file@.len(),
                file@ == per_file@[f as int]@,
                f < per_file@.len(),
                fviews == per_file@.map_values(
                    |v: Vec<SymbolDef>| v@.map_values(|d: SymbolDef| d@),
                ),
                out@.map_values(|d: SymbolDef| d@) == out0 + fviews[f as int].subrange(
                    0,
                    k as int,
                ),
            decreases file@.len() - k,
        {
            let ghost outpre = out@.map_values(|d: SymbolDef| d@);
            out.push(file[k].clone());
            proof {
                assert(out@.map_values(|d: SymbolDef| d@) =~= outpre.push(file@[k as int]@));
                assert(fviews[f as int][k as int] == file@[k as int]@);
                assert(fviews[f as int].subrange(0, k + 1 as int).drop_last() =~= fviews[
                    f as int
                ].subrange(0, k as int));
                assert(out@.map_values(|d: SymbolDef| d@) =~= out0 + fviews[f as int].subrange(
                    0,
                    k + 1 as int,
                ));
            }
            k = k + 1;
        }
        proof {
            let pre = fviews.subrange(0, f as int);
            let cur = fviews.subrange(0, f + 1 as int);
            assert(cur.drop_last() =~= pre);
            assert(fviews[f as int].subrange(0, fviews[f as int].len() as int) =~= fviews[
                f as int
            ]);
            assert(out@.map_values(|d: SymbolDef| d@) =~= concat_all(cur));
        }
        f = f + 1;
    }
    proof {
        assert(fviews.subrange(0, fviews.len() as int) =~= fviews);
    }
    out
}

/// Where no strong definition of `name` occurs among `defs`, the database
/// either lacks the name or holds a weak entry for it.
proof fn lemma_no_strong(defs: Seq<SymbolDefV>, name: Seq<char>)
    requires
        forall|j: int|
            0 <= j < defs.len() ==> !(defs[j].name == name && defs[j].strength
                == SymbolStrength::Strong),
    ensures
        spec_build(defs).contains_key(name) ==> spec_build(defs)[name].strength
            == SymbolStrength::Weak,
    decreases defs.len(),
{
    if defs.len() > 0 {
        assert(forall|j: int|
            0 <= j < defs.drop_last().len() ==> defs.drop_last()[j] == defs[j]);
        lemma_no_strong(defs.drop_last(), name);
    }
}

/// One-definition invariant: for a name whose first strong definition in
/// link-command order is `defs[k]`, the finished database maps the name to
/// exactly that definition — its id, its file and strong strength — no
/// matter what other definitions of the name appear before or after it.
pub proof fn lemma_one_definition(defs: Seq<SymbolDefV>, name: Seq<char>, k: int)
    requires
        defs.len() <= usize::MAX,
        0 <= k < defs.len(),
        defs[k].name == name,
        defs[k].strength == SymbolStrength::Strong,
        forall|j: int|
            0 <= j < k ==> !(defs[j].name == name && defs[j].strength == SymbolStrength::Strong),
    ensures
        spec_build(defs).contains_key(name),
        spec_build(defs)[name].symbol_id == k,
        spec_build(defs)[name].file_id == defs[k].file_id,
        spec_build(defs)[name].strength == SymbolStrength::Strong,
    decreases defs.len(),
{
    assert(forall|j: int|
        0 <= j < defs.drop_last().len() ==> defs.drop_last()[j] == defs[j]);
    if k == defs.len() - 1 {
        lemma_no_strong(defs.drop_last(), name);
    } else {
        lemma_one_definition(defs.drop_last(), name, k);
    }
}

/// The first unresolved reference, if any.
pub open spec fn first_undefined(
    refs: Seq<SymbolRefV>,
    db: Map<Seq<char>, SymbolEntryV>,
) -> Option<int> {
    if exists|i: int| 0 <= i < refs.len() && !db.contains_key(refs[i].name) {
        Some(
            choose|i: int|
                0 <= i < refs.len() && !db.contains_key(refs[i].name) && forall|j: int|
                    0 <= j < i ==> db.contains_key(refs[j].name),
        )
    } else {
        None
    }
}

/// The files referencing `name`, in reference order.
pub open spec fn files_referencing(refs: Seq<SymbolRefV>, name: Seq<char>) -> Seq<usize>
    decreases refs.len(),
{
    if refs.len() == 0 {
        Seq::empty()
    } else {
        let pre = files_referencing(refs.drop_last(), name);
        if refs.last().name == name {
            pre.push(refs.last().file_id)
        } else {
            pre
        }
    }
}

/// Checks that every reference resolves. The first unresolved name (in
/// reference order) is reported, with the list of every file referencing
/// it; a link with such a reference produces no output.
pub fn check_references(db: &SymbolDatabase, refs: &Vec<SymbolRef>) -> (r: Result<
    (),
    LinkError,
>)
    requires
        db.wf(),
    ensures
        r is Ok <==> (forall|i: int|
            0 <= i < refs@.len() ==> db@.contains_key(#[trigger] refs@[i]@.name)),
        r matches Err(e) ==> exists|i: int|
            {
                &&& 0 <= i < refs@.len()
                &&& !db@.contains_key(refs@[i]@.name)
                &&& (forall|j: int| 0 <= j < i ==> db@.contains_key(#[trigger] refs@[j]@.name))
                &&& e@ == (crate::errors::LinkErrorV::UndefinedSymbol {
                    name: refs@[i]@.name,
                    referencing_files: files_referencing(
                        refs@.map_values(|x: SymbolRef| x@),
                        refs@[i]@.name,
                    ),
                })
            },
{
    let ghost rviews = refs@.map_values(|x: SymbolRef| x@);
    let mut i: usize = 0;
    while i < refs.len()
        invariant
            i <= refs@.len(),
            db.wf(),
            rviews == refs@.map_values(|x: SymbolRef| x@),
            forall|j: int| 0 <= j < i ==> db@.contains_key(#[trigger] refs@[j]@.name),
        decreases refs@.len() - i,
    {
        if db.resolve(&refs[i].name).is_none() {
            let name = refs[i].name.clone();
            let mut files: Vec<usize> = Vec::new();
            proof {
                assert(files@ =~= files_referencing(rviews.subrange(0, 0), name@));
            }
            let mut t: usize = 0;
            while t < refs.len()
                invariant
                    t <= refs@.len(),
                    rviews == refs@.map_values(|x: SymbolRef| x@),
                    name@ == rviews[i as int].name,
                    i < refs@.len(),
                    files@ == files_referencing(rviews.subrange(0, t as int), name@),
                decreases refs@.len() - t,
            {
                if refs[t].name == name {
                    files.push(refs[t].file_id);
                }
                proof {
                    let pre = rviews.subrange(0, t as int);
                    let cur = rviews.subrange(0, t + 1 as int);
                    assert(cur.drop_last() =~= pre);
                    assert(cur.last() == rviews[t as int]);
                }
                t = t + 1;
            }
            proof {
                assert(rviews.subrange(0, rviews.len() as int) =~= rviews);
            }
            return Err(LinkError::UndefinedSymbol { name, referencing_files: files });
        }
        i = i + 1;
    }
    Ok(())
}

} // verus!
