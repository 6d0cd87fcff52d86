use crate::error::{CompileError, CompileErrorView};
use crate::json::{
    copy_value, describe_json_error, distinct_keys, json_error_text, json_members, json_parse,
    members_view, object_members, parse_document, Members,
};
use vstd::prelude::*;

verus! {

/// A database name and a collection name. Namespaces compare by the
/// database name first, then by the collection name.
#[derive(Clone, Debug, PartialEq, Eq, PartialOrd, Ord, Hash)]
pub struct Namespace {
    pub database: String,
    pub collection: String,
}

/// One collection of the schema document: its namespace and its schema, still
/// as JSON.
#[derive(Debug)]
pub struct SchemaEntry {
    pub namespace: Namespace,
    pub document: serde_json::Value,
}

/// The mathematical value of a [`SchemaEntry`].
pub ghost struct SchemaEntryView {
    pub database: Seq<char>,
    pub collection: Seq<char>,
    pub document: serde_json::Value,
}

impl View for SchemaEntry {
    type V = SchemaEntryView;

    open spec fn view(&self) -> SchemaEntryView {
        SchemaEntryView {
            database: self.namespace.database@,
            collection: self.namespace.collection@,
            document: self.document,
        }
    }
}

/// The views of a sequence of entries.
pub open spec fn entries_view(entries: Seq<SchemaEntry>) -> Seq<SchemaEntryView> {
    Seq::new(entries.len(), |i: int| entries[i]@)
}

/// The entries of one database, one for each of its collections.
pub open spec fn database_entries(database: Seq<char>, collections: Members) -> Seq<
    SchemaEntryView,
> {
    Seq::new(
        collections.len(),
        |i: int|
            SchemaEntryView {
                database,
                collection: collections[i].0,
                document: collections[i].1,
            },
    )
}

/// Whether no two entries share a namespace.
pub open spec fn distinct_namespaces(entries: Seq<SchemaEntryView>) -> bool {
    forall|i: int, j: int|
        0 <= i < j < entries.len() ==> !((#[trigger] entries[i]).database == (
        #[trigger] entries[j]).database && entries[i].collection == entries[j].collection)
}

/// The collections of one more database, none of which is named twice, keep
/// the namespaces apart.
pub proof fn lemma_append_distinct(
    before: Seq<SchemaEntryView>,
    database: Seq<char>,
    collections: Members,
)
    requires
        distinct_namespaces(before),
        distinct_keys(collections),
        forall|e: int| 0 <= e < before.len() ==> (#[trigger] before[e]).database != database,
    ensures
        distinct_namespaces(before + database_entries(database, collections)),
{
    let added = database_entries(database, collections);
    let whole = before + added;
    assert forall|i: int, j: int| 0 <= i < j < whole.len() implies !((#[trigger] whole[i]).database
        == (#[trigger] whole[j]).database && whole[i].collection == whole[j].collection) by {
        if j < before.len() {
            assert(whole[i] == before[i] && whole[j] == before[j]);
        } else if i < before.len() {
            assert(whole[i] == before[i]);
            assert(whole[j] == added[j - before.len()]);
        } else {
            assert(whole[i] == added[i - before.len()]);
            assert(whole[j] == added[j - before.len()]);
            assert(collections[i - before.len()].0 != collections[j - before.len()].0);
        }
    }
}

/// The work that a schema document asks for: the entries to convert, in
/// order, and the database at which the walk stopped, if it did.
pub ghost struct PlanView {
    pub entries: Seq<SchemaEntryView>,
    pub blocked: Option<Seq<char>>,
}

/// The plan for a list of databases. The walk takes the databases in order
/// and stops at the first whose value is no object.
pub open spec fn plan_of(databases: Members) -> PlanView
    decreases databases.len(),
{
    if databases.len() == 0 {
        PlanView { entries: Seq::empty(), blocked: None }
    } else {
        let before = plan_of(databases.drop_last());
        if before.blocked.is_some() {
            before
        } else {
            match json_members(databases.last().1) {
                None => PlanView { entries: before.entries, blocked: Some(databases.last().0) },
                Some(collections) => PlanView {
                    entries: before.entries + database_entries(databases.last().0, collections),
                    blocked: None,
                },
            }
        }
    }
}

/// The entries of a schema document up to the first database whose value is
/// no object, and that database's name.
#[derive(Debug)]
pub struct Plan {
    pub entries: Vec<SchemaEntry>,
    pub blocked: Option<String>,
}

impl View for Plan {
    type V = PlanView;

    open spec fn view(&self) -> PlanView {
        PlanView {
            entries: entries_view(self.entries@),
            blocked: match self.blocked {
                Some(name) => Some(name@),
                None => None,
            },
        }
    }
}

/// Appends one entry for each collection of a database.
fn push_database(
    entries: &mut Vec<SchemaEntry>,
    database: &String,
    collections: &Vec<(&String, &serde_json::Value)>,
)
    ensures
        entries_view(final(entries)@) == entries_view(old(entries)@) + database_entries(
            database@,
            members_view(collections@),
        ),
{
    let ghost start = entries_view(entries@);
    let mut i: usize = 0;
    while i < collections.len()
        invariant
            i <= collections@.len(),
            entries_view(entries@) =~= start + database_entries(
                database@,
                members_view(collections@),
            ).take(i as int),
        decreases collections@.len() - i,
    {
        let pair = &collections[i];
        let entry = SchemaEntry {
            namespace: Namespace { database: database.clone(), collection: pair.0.clone() },
            document: copy_value(pair.1),
        };
        let ghost before = entries@;
        entries.push(entry);
        proof {
            let added = database_entries(database@, members_view(collections@));
            assert(entries_view(entries@) =~= entries_view(before).push(added[i as int]));
            assert(added.take(i + 1) =~= added.take(i as int).push(added[i as int]));
        }
        i += 1;
    }
    assert(database_entries(database@, members_view(collections@)).take(i as int)
        =~= database_entries(database@, members_view(collections@)));
}

/// Walks the databases of a schema document and lists the collections to
/// convert, stopping at the first database whose value is no object.
pub fn plan_databases(databases: &Vec<(&String, &serde_json::Value)>) -> (r: Plan)
    ensures
        r@ == plan_of(members_view(databases@)),
        distinct_keys(members_view(databases@)) ==> distinct_namespaces(r@.entries),
{
    let ghost all = members_view(databases@);
    let mut entries: Vec<SchemaEntry> = Vec::new();
    let mut i: usize = 0;
    proof {
        assert(all.take(0) =~= Seq::empty());
        assert(entries_view(entries@) =~= Seq::empty());
    }
    while i < databases.len()
        invariant
            i <= databases@.len(),
            all == members_view(databases@),
            plan_of(all.take(i as int)) == (PlanView {
                entries: entries_view(entries@),
                blocked: None,
            }),
            distinct_keys(all) ==> distinct_namespaces(entries_view(entries@)),
            distinct_keys(all) ==> forall|e: int, k: int|
                0 <= e < entries@.len() && i <= k < all.len() ==> (#[trigger] entries_view(
                    entries@,
                )[e]).database != (#[trigger] all[k]).0,
        decreases databases@.len() - i,
    {
        let pair = &databases[i];
        proof {
            assert(all.take(i + 1).drop_last() =~= all.take(i as int));
            assert(all.take(i + 1).last() == all[i as int]);
        }
        match object_members(pair.1) {
            None => {
                let plan = Plan { entries, blocked: Some(pair.0.clone()) };
                proof {
                    lemma_blocked_stays(all, i + 1);
                }
                return plan;
            },
            Some(collections) => {
                let ghost before = entries_view(entries@);
                push_database(&mut entries, pair.0, &collections);
                proof {
                    let members = members_view(collections@);
                    let added = database_entries(pair.0@, members);
                    if distinct_keys(all) {
                        assert(all[i as int].0 == pair.0@);
                        lemma_append_distinct(before, pair.0@, members);
                        let after = entries_view(entries@);
                        assert forall|e: int, k: int|
                            0 <= e < after.len() && i + 1 <= k < all.len() implies (
                        #[trigger] after[e]).database != (#[trigger] all[k]).0 by {
                            if e < before.len() {
                                assert(after[e] == before[e]);
                            } else {
                                assert(after[e] == added[e - before.len()]);
                            }
                        }
                    }
                }
            },
        }
        i += 1;
    }
    proof {
        assert(all.take(i as int) =~= all);
    }
    Plan { entries, blocked: None }
}

/// Once the walk has stopped, later databases change nothing.
pub proof fn lemma_blocked_stays(databases: Members, n: int)
    requires
        0 <= n <= databases.len(),
        plan_of(databases.take(n)).blocked.is_some(),
    ensures
        plan_of(databases) == plan_of(databases.take(n)),
    decreases databases.len(),
{
    if n == databases.len() {
        assert(databases.take(n) =~= databases);
    } else {
        assert(databases.drop_last().take(n) =~= databases.take(n));
        lemma_blocked_stays(databases.drop_last(), n);
    }
}

/// The plan for a schema document, or the error of one that is no object.
pub open spec fn plan_of_document(root: serde_json::Value) -> Result<PlanView, CompileErrorView> {
    match json_members(root) {
        None => Err(CompileErrorView::RootShape),
        Some(databases) => Ok(plan_of(databases)),
    }
}

/// The plan for what a parser made of a schema text.
pub open spec fn plan_of_parsed(parsed: Result<serde_json::Value, Seq<char>>) -> Result<
    PlanView,
    CompileErrorView,
> {
    match parsed {
        Err(cause) => Err(CompileErrorView::MalformedJson { cause }),
        Ok(root) => plan_of_document(root),
    }
}

/// The plan for a schema text.
pub open spec fn plan_of_text(text: Seq<char>) -> Result<PlanView, CompileErrorView> {
    plan_of_parsed(json_parse(text))
}

/// The view of a plan or of the error in its place.
pub open spec fn plan_outcome_view(outcome: Result<Plan, CompileError>) -> Result<
    PlanView,
    CompileErrorView,
> {
    match outcome {
        Ok(plan) => Ok(plan@),
        Err(error) => Err(error@),
    }
}

/// The view of what a parser made of a text.
pub open spec fn parsed_view(parsed: Result<serde_json::Value, serde_json::Error>) -> Result<
    serde_json::Value,
    Seq<char>,
> {
    match parsed {
        Ok(root) => Ok(root),
        Err(error) => Err(json_error_text(error)),
    }
}

/// Lists the collections of a schema document. A document that is no object
/// is an error; a database whose value is no object ends the list.
pub fn plan_document(root: &serde_json::Value) -> (r: Result<Plan, CompileError>)
    ensures
        plan_outcome_view(r) == plan_of_document(*root),
        r matches Ok(plan) ==> distinct_namespaces(plan@.entries),
{
    match object_members(root) {
        None => Err(CompileError::RootShape),
        Some(databases) => Ok(plan_databases(&databases)),
    }
}

/// Lists the collections of a parsed schema text, or reports the parser's
/// complaint.
pub fn plan_parsed(parsed: Result<serde_json::Value, serde_json::Error>) -> (r: Result<
    Plan,
    CompileError,
>)
    ensures
        plan_outcome_view(r) == plan_of_parsed(parsed_view(parsed)),
        r matches Ok(plan) ==> distinct_namespaces(plan@.entries),
{
    match parsed {
        Err(error) => Err(CompileError::MalformedJson { cause: describe_json_error(&error) }),
        Ok(root) => plan_document(&root),
    }
}

/// Parses a schema text and lists its collections.
pub fn build_plan(text: &str) -> (r: Result<Plan, CompileError>)
    ensures
        plan_outcome_view(r) == plan_of_text(text@),
        r matches Ok(plan) ==> distinct_namespaces(plan@.entries),
{
    plan_parsed(parse_document(text))
}

/// How the conversion of one entry to a native schema ended.
#[derive(Debug)]
pub enum Conversion {
    /// The entry has its native schema.
    Converted,
    /// The document was not a JSON schema.
    NotASchema { cause: String },
    /// The JSON schema had no native counterpart.
    NoCounterpart { cause: String },
}

/// The mathematical value of a [`Conversion`].
pub ghost enum ConversionView {
    Converted,
    NotASchema { cause: Seq<char> },
    NoCounterpart { cause: Seq<char> },
}

impl View for Conversion {
    type V = ConversionView;

    open spec fn view(&self) -> ConversionView {
        match *self {
            Conversion::Converted => ConversionView::Converted,
            Conversion::NotASchema { cause } => ConversionView::NotASchema { cause: cause@ },
            Conversion::NoCounterpart { cause } => ConversionView::NoCounterpart { cause: cause@ },
        }
    }
}

/// What to do next while a catalog is built.
#[derive(Debug)]
pub enum Next {
    /// Convert the entry at `index`.
    Convert { index: usize },
    /// Every entry is converted: translate the query.
    Translate,
    /// Give up with `error`.
    Fail { error: CompileError },
}

/// The mathematical value of a [`Next`].
pub ghost enum NextView {
    Convert { index: int },
    Translate,
    Fail { error: CompileErrorView },
}

impl View for Next {
    type V = NextView;

    open spec fn view(&self) -> NextView {
        match *self {
            Next::Convert { index } => NextView::Convert { index: index as int },
            Next::Translate => NextView::Translate,
            Next::Fail { error } => NextView::Fail { error: error@ },
        }
    }
}

impl PlanView {
    /// What to do once the entries before `index` are converted.
    pub open spec fn at(self, index: int) -> NextView {
        if index < self.entries.len() {
            NextView::Convert { index }
        } else {
            match self.blocked {
                Some(database) => NextView::Fail {
                    error: CompileErrorView::DatabaseShape { database },
                },
                None => NextView::Translate,
            }
        }
    }

    /// What to do once the conversion of the entry at `index` has ended.
    pub open spec fn after(self, index: int, outcome: ConversionView) -> NextView {
        match outcome {
            ConversionView::Converted => self.at(index + 1),
            ConversionView::NotASchema { cause } => NextView::Fail {
                error: CompileErrorView::SchemaParse {
                    database: self.entries[index].database,
                    collection: self.entries[index].collection,
                    cause,
                },
            },
            ConversionView::NoCounterpart { cause } => NextView::Fail {
                error: CompileErrorView::SchemaConversion {
                    database: self.entries[index].database,
                    collection: self.entries[index].collection,
                    cause,
                },
            },
        }
    }

    /// Where the build stands after the given conversions, taken in order
    /// from the first entry: at the first failure if there is one.
    pub open spec fn run(self, outcomes: Seq<ConversionView>) -> NextView
        decreases outcomes.len(),
    {
        if outcomes.len() == 0 {
            self.at(0)
        } else {
            match self.run(outcomes.drop_last()) {
                NextView::Convert { index } => self.after(index, outcomes.last()),
                other => other,
            }
        }
    }
}

impl Plan {
    fn at(&self, index: usize) -> (r: Next)
        ensures
            r@ == self@.at(index as int),
    {
        if index < self.entries.len() {
            Next::Convert { index }
        } else {
            match &self.blocked {
                Some(database) => Next::Fail {
                    error: CompileError::DatabaseShape { database: database.clone() },
                },
                None => Next::Translate,
            }
        }
    }

    /// The first thing to do.
    pub fn start(&self) -> (r: Next)
        ensures
            r@ == self@.at(0),
    {
        self.at(0)
    }

    /// What to do once the conversion of the entry at `index` has ended: go
    /// on with the next entry, or give up with an error that names the
    /// entry's namespace.
    pub fn advance(&self, index: usize, outcome: Conversion) -> (r: Next)
        requires
            index < self.entries.len(),
        ensures
            r@ == self@.after(index as int, outcome@),
    {
        match outcome {
            Conversion::Converted => self.at(index + 1),
            Conversion::NotASchema { cause } => Next::Fail {
                error: CompileError::SchemaParse {
                    database: self.entries[index].namespace.database.clone(),
                    collection: self.entries[index].namespace.collection.clone(),
                    cause,
                },
            },
            Conversion::NoCounterpart { cause } => Next::Fail {
                error: CompileError::SchemaConversion {
                    database: self.entries[index].namespace.database.clone(),
                    collection: self.entries[index].namespace.collection.clone(),
                    cause,
                },
            },
        }
    }
}

/// While every conversion succeeds, the build goes from entry to entry.
pub proof fn lemma_run_converted(plan: PlanView, outcomes: Seq<ConversionView>)
    requires
        outcomes.len() <= plan.entries.len(),
        forall|i: int| 0 <= i < outcomes.len() ==> outcomes[i] is Converted,
    ensures
        plan.run(outcomes) == plan.at(outcomes.len() as int),
    decreases outcomes.len(),
{
    if outcomes.len() > 0 {
        lemma_run_converted(plan, outcomes.drop_last());
    }
}

/// The first conversion that fails ends the build with the error of its own
/// entry; what comes after it changes nothing.
pub proof fn lemma_run_fails_fast(plan: PlanView, outcomes: Seq<ConversionView>, k: int)
    requires
        0 <= k < outcomes.len(),
        k < plan.entries.len(),
        forall|i: int| 0 <= i < k ==> outcomes[i] is Converted,
        !(outcomes[k] is Converted),
    ensures
        plan.run(outcomes) == plan.after(k, outcomes[k]),
        plan.run(outcomes) is Fail,
    decreases outcomes.len(),
{
    if outcomes.len() == k + 1 {
        lemma_run_converted(plan, outcomes.drop_last());
    } else {
        lemma_run_fails_fast(plan, outcomes.drop_last(), k);
    }
}

/// Once every entry is converted, a plan that stopped at a database fails
/// with the shape error of that database, and any other plan goes on to the
/// translation.
pub proof fn lemma_run_to_the_end(plan: PlanView, outcomes: Seq<ConversionView>)
    requires
        outcomes.len() == plan.entries.len(),
        forall|i: int| 0 <= i < outcomes.len() ==> outcomes[i] is Converted,
    ensures
        plan.run(outcomes) == match plan.blocked {
            Some(database) => NextView::Fail {
                error: CompileErrorView::DatabaseShape { database },
            },
            None => NextView::Translate,
        },
{
    lemma_run_converted(plan, outcomes);
}

/// The walk stops at the first database whose value is no object, and at no
/// other.
pub proof fn lemma_first_misshapen_database_blocks(databases: Members, k: int)
    requires
        0 <= k < databases.len(),
        json_members(databases[k].1) is None,
        forall|j: int| 0 <= j < k ==> json_members(#[trigger] databases[j].1) is Some,
    ensures
        plan_of(databases).blocked == Some(databases[k].0),
{
    lemma_well_shaped_prefix(databases.take(k));
    assert(databases.take(k + 1).drop_last() =~= databases.take(k));
    lemma_blocked_stays(databases, k + 1);
}

/// Databases whose values are all objects never stop the walk.
pub proof fn lemma_well_shaped_prefix(databases: Members)
    requires
        forall|j: int| 0 <= j < databases.len() ==> json_members(#[trigger] databases[j].1) is Some,
    ensures
        plan_of(databases).blocked is None,
    decreases databases.len(),
{
    if databases.len() > 0 {
        lemma_well_shaped_prefix(databases.drop_last());
    }
}

} // verus!
