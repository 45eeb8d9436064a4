//! The operations on a store handle: what each asks of the store.
//!
//! Every operation names the collection it goes to. Creating stamps the
//! record, updating puts a timestamp stage behind the caller's stages, and a
//! paged query puts three paging stages behind the caller's pipeline. The
//! request that comes out is run by the caller against the driver.

use crate::database::document::{views_of, Fields, StageDocument, Value, ValueView};
use crate::database::fields::inserted;
use crate::database::mongo_client::MongoClient;
use crate::handlers::error_handler::Errors;
use crate::helpers::clock::{current_timestamp, CLOCK_LIMIT};
use crate::traits::model::ModelTrait;
use vstd::prelude::*;

verus! {

/// Where an operation goes: a collection of a database.
#[derive(Clone, Debug, PartialEq, Eq)]
pub struct Namespace {
    pub database: String,
    pub collection: String,
}

/// One stage of a pipeline: a document that the caller gave, handed on as
/// it came, or one that this library made.
#[derive(Clone, Debug, PartialEq)]
pub enum Stage {
    Given(bson::Document),
    Made(StageDocument),
}

/// A stage as a value of mathematics.
pub enum StageView {
    Given(bson::Document),
    Made(Fields),
}

impl View for Stage {
    type V = StageView;

    open spec fn view(&self) -> StageView {
        match self {
            Stage::Given(document) => StageView::Given(*document),
            Stage::Made(document) => StageView::Made(document@),
        }
    }
}

/// What each stage of a pipeline is.
pub open spec fn stage_views(stages: Seq<Stage>) -> Seq<StageView> {
    Seq::new(stages.len(), |i: int| stages[i]@)
}

/// A run of documents as the stages that a caller gave.
pub open spec fn given(documents: Seq<bson::Document>) -> Seq<StageView> {
    Seq::new(documents.len(), |i: int| StageView::Given(documents[i]))
}

/// A run of documents as stages that this library made.
pub open spec fn made(documents: Seq<Fields>) -> Seq<StageView> {
    Seq::new(documents.len(), |i: int| StageView::Made(documents[i]))
}

/// A request to find the first document that matches a filter, be it to
/// read it or to delete it.
#[derive(Clone, Debug, PartialEq)]
pub struct Query {
    pub namespace: Namespace,
    pub filter: bson::Document,
}

/// A request to find the first document that matches a filter and to run
/// an update pipeline on it.
#[derive(Clone, Debug, PartialEq)]
pub struct Update {
    pub namespace: Namespace,
    pub filter: bson::Document,
    pub pipeline: Vec<Stage>,
}

/// A request to run an aggregation pipeline.
#[derive(Clone, Debug, PartialEq)]
pub struct Aggregation {
    pub namespace: Namespace,
    pub pipeline: Vec<Stage>,
}

/// What a caller wants changed: one update document, or a pipeline of
/// stages. A form that is neither is kept apart, so that it can be refused.
#[derive(Clone, Debug, PartialEq)]
pub enum UpdateModifications {
    Document(bson::Document),
    Pipeline(Vec<bson::Document>),
    Other,
}

/// The page that a paged query asks for.
#[derive(Clone, Copy, Debug, PartialEq, Eq)]
pub struct PageWindow {
    /// The page, counted from one.
    pub page: i32,
    /// How many records a page holds.
    pub page_size: i32,
    /// How many records come before the page.
    pub skip: i32,
}

/// The page size that is used where none is asked for, or one too large.
pub const DEFAULT_PAGE_SIZE: i32 = 10;

/// The first page size that is too large.
pub const PAGE_SIZE_LIMIT: u8 = 100;

/// Whether a character is one of the sixteen lower-case hexadecimal digits.
pub open spec fn is_lower_hex(c: char) -> bool {
    ('0' <= c && c <= '9') || ('a' <= c && c <= 'f')
}

/// Whether a text has the form of a store-made identifier: twenty-four
/// lower-case hexadecimal digits.
pub open spec fn is_object_id(text: Seq<char>) -> bool {
    text.len() == 24 && forall|i: int| 0 <= i < text.len() ==> is_lower_hex(#[trigger] text[i])
}

/// Makes a new identifier with `bson::oid::ObjectId::new` and writes it
/// out through its `Display`.
///
/// Taken on trust: the identifier is twelve bytes, written as twenty-four
/// lower-case hexadecimal digits. Which digits they are depends on the
/// clock, the process and a counter, and nothing is claimed of them.
/// `ObjectId::new` panics on a machine whose clock stands before 1970 or
/// after the year 2106, when its seconds no longer fit in 32 bits.
#[verifier::external_body]
fn fresh_object_id() -> (r: String)
    ensures
        is_object_id(r@),
{
    bson::oid::ObjectId::new().to_string()
}

/// The stage that sets the time of the last change to the second `now`.
pub open spec fn timestamp_stage_view(now: u64) -> Fields {
    seq![("$set"@, ValueView::Document(seq![("updated_at"@, Value::of_u64(now))]))]
}

/// The stages of an update after the timestamp stage is added: the
/// caller's stages in their order, then the timestamp stage. Nothing for a
/// form that is neither a document nor a pipeline.
pub open spec fn stamped_update(update: UpdateModifications, now: u64) -> Option<Seq<StageView>> {
    match update {
        UpdateModifications::Document(document) => Some(
            seq![
                StageView::Given(document),
                StageView::Made(timestamp_stage_view(now)),
            ],
        ),
        UpdateModifications::Pipeline(stages) => Some(
            given(stages@).push(StageView::Made(timestamp_stage_view(now))),
        ),
        UpdateModifications::Other => None,
    }
}

impl PageWindow {
    /// The window for a page and a page size as asked for: a missing page
    /// is the first, a missing page size or one of a hundred or more is
    /// ten, and the records before the page are skipped.
    pub open spec fn of(page: Option<u8>, page_size: Option<u8>) -> PageWindow {
        let size: i32 = match page_size {
            Some(asked) => if asked >= PAGE_SIZE_LIMIT {
                DEFAULT_PAGE_SIZE
            } else {
                asked as i32
            },
            None => DEFAULT_PAGE_SIZE,
        };
        let number: i32 = match page {
            Some(asked) => asked as i32,
            None => 1,
        };
        PageWindow { page: number, page_size: size, skip: ((number - 1) * size) as i32 }
    }

    /// Whether the window is one that `new` makes.
    pub open spec fn in_range(self) -> bool {
        &&& 0 <= self.page <= 255
        &&& 0 <= self.page_size < PAGE_SIZE_LIMIT
        &&& self.skip == (self.page - 1) * self.page_size
    }

    /// Makes the window for a page and a page size as asked for.
    pub fn new(page: Option<u8>, page_size: Option<u8>) -> (r: PageWindow)
        ensures
            r == PageWindow::of(page, page_size),
            r.in_range(),
    {
        let size: i32 = match page_size {
            Some(asked) => if asked >= PAGE_SIZE_LIMIT {
                DEFAULT_PAGE_SIZE
            } else {
                asked as i32
            },
            None => DEFAULT_PAGE_SIZE,
        };
        let number: i32 = match page {
            Some(asked) => asked as i32,
            None => 1,
        };
        assert(-99 <= (number - 1) * size <= 254 * 99) by (nonlinear_arith)
            requires
                0 <= number <= 255,
                0 <= size <= 99,
        ;
        PageWindow { page: number, page_size: size, skip: (number - 1) * size }
    }

    /// How many records the data branch asks for: one more than a page
    /// holds, to see whether a further page exists.
    pub open spec fn limit(self) -> i32 {
        (self.page_size + 1) as i32
    }
}

/// The stage that splits the result in two branches: the records of the
/// window and one more, and the count of all records.
pub open spec fn facet_stage_view(window: PageWindow) -> Fields {
    seq![
        (
            "$facet"@,
            ValueView::Document(
                seq![
                    (
                        "data"@,
                        ValueView::Array(
                            seq![
                                ValueView::Document(seq![("$skip"@, ValueView::Int32(window.skip))]),
                                ValueView::Document(
                                    seq![("$limit"@, ValueView::Int32(window.limit()))],
                                ),
                            ],
                        ),
                    ),
                    (
                        "total_count"@,
                        ValueView::Array(
                            seq![
                                ValueView::Document(
                                    seq![("$count"@, ValueView::Text("total"@))],
                                ),
                            ],
                        ),
                    ),
                ],
            ),
        ),
    ]
}

/// The value that counts all records: the count branch's number, or zero
/// where that branch is empty.
pub open spec fn total_records_view() -> ValueView {
    ValueView::Document(
        seq![
            (
                "$ifNull"@,
                ValueView::Array(
                    seq![
                        ValueView::Document(
                            seq![
                                (
                                    "$arrayElemAt"@,
                                    ValueView::Array(
                                        seq![
                                            ValueView::Text("$total_count.total"@),
                                            ValueView::Int32(0),
                                        ],
                                    ),
                                ),
                            ],
                        ),
                        ValueView::Int32(0),
                    ],
                ),
            ),
        ],
    )
}

/// The value that says whether a further page exists: whether the data
/// branch, before it is trimmed, holds more records than a page.
pub open spec fn has_next_page_view(window: PageWindow) -> ValueView {
    ValueView::Document(
        seq![
            (
                "$gt"@,
                ValueView::Array(
                    seq![
                        ValueView::Document(seq![("$size"@, ValueView::Text("$data"@))]),
                        ValueView::Int32(window.page_size),
                    ],
                ),
            ),
        ],
    )
}

/// The stage that adds the paging metadata.
pub open spec fn metadata_stage_view(window: PageWindow) -> Fields {
    seq![
        (
            "$addFields"@,
            ValueView::Document(
                seq![
                    (
                        "metadata"@,
                        ValueView::Document(
                            seq![
                                ("current_page"@, ValueView::Int32(window.page)),
                                ("page_size"@, ValueView::Int32(window.page_size)),
                                ("total_records"@, total_records_view()),
                                ("has_next_page"@, has_next_page_view(window)),
                            ],
                        ),
                    ),
                ],
            ),
        ),
    ]
}

/// The stage that trims the data branch to one page and keeps the metadata.
pub open spec fn project_stage_view(window: PageWindow) -> Fields {
    seq![
        (
            "$project"@,
            ValueView::Document(
                seq![
                    (
                        "data"@,
                        ValueView::Document(
                            seq![
                                (
                                    "$slice"@,
                                    ValueView::Array(
                                        seq![
                                            ValueView::Text("$data"@),
                                            ValueView::Int32(window.page_size),
                                        ],
                                    ),
                                ),
                            ],
                        ),
                    ),
                    ("metadata"@, ValueView::Int32(1)),
                ],
            ),
        ),
    ]
}

/// The three stages that page a result.
pub open spec fn paging_stages_view(window: PageWindow) -> Seq<Fields> {
    seq![facet_stage_view(window), metadata_stage_view(window), project_stage_view(window)]
}

/// The pipeline that a paged query runs: the caller's stages, followed by
/// the three paging stages where paging is asked for.
pub open spec fn paged_pipeline(
    stages: Seq<bson::Document>,
    page: Option<u8>,
    page_size: Option<u8>,
    paging_data: bool,
) -> Seq<StageView> {
    if paging_data {
        given(stages) + made(paging_stages_view(PageWindow::of(page, page_size)))
    } else {
        given(stages)
    }
}

/// A name that no field has yet goes last.
proof fn new_key_goes_last(fields: Fields, key: Seq<char>, value: ValueView)
    requires
        forall|i: int| 0 <= i < fields.len() ==> (#[trigger] fields[i]).0 != key,
    ensures
        inserted(fields, key, value) == fields.push((key, value)),
{
}

/// The field names that stand side by side in one document differ.
proof fn sibling_names_differ()
    ensures
        "data"@ != "total_count"@,
        "data"@ != "metadata"@,
        "current_page"@ != "page_size"@,
        "current_page"@ != "total_records"@,
        "current_page"@ != "has_next_page"@,
        "page_size"@ != "total_records"@,
        "page_size"@ != "has_next_page"@,
        "total_records"@ != "has_next_page"@,
{
    reveal_strlit("data");
    reveal_strlit("total_count");
    reveal_strlit("metadata");
    reveal_strlit("current_page");
    reveal_strlit("page_size");
    reveal_strlit("total_records");
    reveal_strlit("has_next_page");
    assert("data"@.len() == 4);
    assert("total_count"@.len() == 11);
    assert("metadata"@.len() == 8);
    assert("current_page"@.len() == 12);
    assert("page_size"@.len() == 9);
    assert("total_records"@.len() == 13);
    assert("has_next_page"@.len() == 13);
    assert("total_records"@[0] == 't');
    assert("has_next_page"@[0] == 'h');
}

/// Makes the stage that sets the time of the last change to `now`.
pub fn timestamp_stage(now: u64) -> (r: StageDocument)
    ensures
        r@ == timestamp_stage_view(now),
{
    let set = StageDocument::single("updated_at", Value::from_u64(now));
    StageDocument::single("$set", Value::Document(set))
}

/// Makes the stage that splits the result in the data branch and the
/// count branch.
fn facet_stage(window: &PageWindow) -> (r: StageDocument)
    requires
        window.in_range(),
    ensures
        r@ == facet_stage_view(*window),
{
    let skip = StageDocument::single("$skip", Value::Int32(window.skip));
    let limit = StageDocument::single("$limit", Value::Int32(window.page_size + 1));
    let data = Value::array2(Value::Document(skip), Value::Document(limit));
    let count = StageDocument::single("$count", Value::text("total"));
    let total_count = Value::array1(Value::Document(count));
    let mut branches = StageDocument::single("data", data);
    proof {
        sibling_names_differ();
        new_key_goes_last(branches@, "total_count"@, total_count@);
    }
    branches.insert("total_count".to_string(), total_count);
    assert(branches@ =~= seq![("data"@, data@), ("total_count"@, total_count@)]);
    StageDocument::single("$facet", Value::Document(branches))
}

/// Makes the value that counts all records.
fn total_records() -> (r: Value)
    ensures
        r@ == total_records_view(),
{
    let element = StageDocument::single(
        "$arrayElemAt",
        Value::array2(Value::text("$total_count.total"), Value::Int32(0)),
    );
    let or_zero = StageDocument::single(
        "$ifNull",
        Value::array2(Value::Document(element), Value::Int32(0)),
    );
    Value::Document(or_zero)
}

/// Makes the value that says whether a further page exists.
fn has_next_page(window: &PageWindow) -> (r: Value)
    ensures
        r@ == has_next_page_view(*window),
{
    let size = StageDocument::single("$size", Value::text("$data"));
    let more = StageDocument::single(
        "$gt",
        Value::array2(Value::Document(size), Value::Int32(window.page_size)),
    );
    Value::Document(more)
}

/// Makes the stage that adds the paging metadata.
fn metadata_stage(window: &PageWindow) -> (r: StageDocument)
    ensures
        r@ == metadata_stage_view(*window),
{
    let total = total_records();
    let next = has_next_page(window);
    let mut metadata = StageDocument::single("current_page", Value::Int32(window.page));
    proof {
        sibling_names_differ();
        new_key_goes_last(metadata@, "page_size"@, ValueView::Int32(window.page_size));
    }
    metadata.insert("page_size".to_string(), Value::Int32(window.page_size));
    assert(metadata@ =~= seq![
        ("current_page"@, ValueView::Int32(window.page)),
        ("page_size"@, ValueView::Int32(window.page_size)),
    ]);
    proof {
        new_key_goes_last(metadata@, "total_records"@, total@);
    }
    metadata.insert("total_records".to_string(), total);
    assert(metadata@ =~= seq![
        ("current_page"@, ValueView::Int32(window.page)),
        ("page_size"@, ValueView::Int32(window.page_size)),
        ("total_records"@, total@),
    ]);
    proof {
        new_key_goes_last(metadata@, "has_next_page"@, next@);
    }
    metadata.insert("has_next_page".to_string(), next);
    assert(metadata@ =~= seq![
        ("current_page"@, ValueView::Int32(window.page)),
        ("page_size"@, ValueView::Int32(window.page_size)),
        ("total_records"@, total@),
        ("has_next_page"@, next@),
    ]);
    let fields = StageDocument::single("metadata", Value::Document(metadata));
    StageDocument::single("$addFields", Value::Document(fields))
}

/// Makes the stage that trims the data branch to one page.
fn project_stage(window: &PageWindow) -> (r: StageDocument)
    ensures
        r@ == project_stage_view(*window),
{
    let slice = StageDocument::single(
        "$slice",
        Value::array2(Value::text("$data"), Value::Int32(window.page_size)),
    );
    let ghost sliced = ValueView::Document(slice@);
    let mut fields = StageDocument::single("data", Value::Document(slice));
    proof {
        sibling_names_differ();
        new_key_goes_last(fields@, "metadata"@, ValueView::Int32(1));
    }
    fields.insert("metadata".to_string(), Value::Int32(1));
    assert(fields@ =~= seq![("data"@, sliced), ("metadata"@, ValueView::Int32(1))]);
    StageDocument::single("$project", Value::Document(fields))
}

/// Makes the three stages that page a result, for a page and a page size
/// as asked for.
pub fn paging_stages(page: Option<u8>, page_size: Option<u8>) -> (r: Vec<StageDocument>)
    ensures
        views_of(r@) == paging_stages_view(PageWindow::of(page, page_size)),
{
    let window = PageWindow::new(page, page_size);
    let mut stages: Vec<StageDocument> = Vec::new();
    stages.push(facet_stage(&window));
    stages.push(metadata_stage(&window));
    stages.push(project_stage(&window));
    assert(views_of(stages@) =~= paging_stages_view(window));
    stages
}

/// Hands on the documents that a caller gave as stages, in their order.
pub fn given_stages(documents: Vec<bson::Document>) -> (r: Vec<Stage>)
    ensures
        stage_views(r@) == given(documents@),
{
    let mut stages: Vec<Stage> = Vec::new();
    let ghost all = documents@;
    for document in it: documents
        invariant
            it.seq() == all,
            stages@.len() == it.index(),
            forall|i: int| 0 <= i < stages@.len() ==> (#[trigger] stages@[i])@ == StageView::Given(all[i]),
    {
        stages.push(Stage::Given(document));
    }
    assert(stage_views(stages@) =~= given(all));
    stages
}

/// Hands on documents that this library made as stages, in their order.
pub fn made_stages(documents: Vec<StageDocument>) -> (r: Vec<Stage>)
    ensures
        stage_views(r@) == made(views_of(documents@)),
{
    let mut stages: Vec<Stage> = Vec::new();
    let ghost all = documents@;
    for document in it: documents
        invariant
            it.seq() == all,
            stages@.len() == it.index(),
            forall|i: int| 0 <= i < stages@.len() ==> (#[trigger] stages@[i])@ == StageView::Made(all[i]@),
    {
        stages.push(Stage::Made(document));
    }
    assert(stage_views(stages@) =~= made(views_of(all)));
    stages
}

/// Adds the timestamp stage to what a caller wants changed: a single
/// document becomes a pipeline of two stages, a pipeline gets one more
/// stage at its end. Any other form is refused, and nothing is asked of
/// the store.
pub fn stamp_update(update: UpdateModifications, now: u64) -> (r: Result<Vec<Stage>, Errors>)
    ensures
        match r {
            Ok(pipeline) => stamped_update(update, now) == Some(stage_views(pipeline@)),
            Err(e) => stamped_update(update, now) is None && e.is_internal("Pipeline error"@),
        },
{
    let stamp = timestamp_stage(now);
    match update {
        UpdateModifications::Document(document) => {
            let mut pipeline: Vec<Stage> = Vec::new();
            pipeline.push(Stage::Given(document));
            pipeline.push(Stage::Made(stamp));
            assert(stage_views(pipeline@) =~= seq![
                StageView::Given(document),
                StageView::Made(stamp@),
            ]);
            Ok(pipeline)
        },
        UpdateModifications::Pipeline(stages) => {
            let mut pipeline = given_stages(stages);
            pipeline.push(Stage::Made(stamp));
            assert(stage_views(pipeline@) =~= given(stages@).push(StageView::Made(stamp@)));
            Ok(pipeline)
        },
        UpdateModifications::Other => Err(Errors::InternalError("Pipeline error".to_string())),
    }
}

/// Stamps a record that is about to be stored: it gets the identifier
/// `id`, and `now` as the time of its creation and of its last change,
/// whatever it carried before.
pub fn stamp_new<M: ModelTrait>(model: &mut M, id: String, now: u64)
    ensures
        final(model).model_id() == id@,
        final(model).model_created_at() == now,
        final(model).model_updated_at() == now,
        final(model).model_rest() == old(model).model_rest(),
{
    model.set_id(id);
    model.set_created_at(now);
    model.set_updated_at(now);
}

impl MongoClient {
    /// Whether `namespace` is the collection `collection_name` of this
    /// handle's database.
    pub open spec fn targets(self, namespace: Namespace, collection_name: Seq<char>) -> bool {
        namespace.database@ == self.db_name@ && namespace.collection@ == collection_name
    }

    /// The collection `collection_name` of this handle's database.
    pub fn namespace(&self, collection_name: String) -> (r: Namespace)
        ensures
            self.targets(r, collection_name@),
    {
        Namespace { database: self.db_name.clone(), collection: collection_name }
    }

    /// Prepares a record for insertion at the current time: the record gets
    /// a new identifier and the current time as both of its timestamps,
    /// whatever the caller had put there. Returns where it is to be
    /// inserted.
    pub fn create_one<M: ModelTrait>(&self, collection_name: String, model: &mut M) -> (r:
        Namespace)
        ensures
            self.targets(r, collection_name@),
            is_object_id(final(model).model_id()),
            final(model).model_created_at() == final(model).model_updated_at(),
            final(model).model_created_at() < CLOCK_LIMIT,
            final(model).model_rest() == old(model).model_rest(),
    {
        let id = fresh_object_id();
        let now = current_timestamp();
        self.create_one_with(collection_name, model, id, now)
    }

    /// Prepares a record for insertion with a given identifier at the
    /// second `now`.
    pub fn create_one_with<M: ModelTrait>(
        &self,
        collection_name: String,
        model: &mut M,
        id: String,
        now: u64,
    ) -> (r: Namespace)
        ensures
            self.targets(r, collection_name@),
            final(model).model_id() == id@,
            final(model).model_created_at() == now,
            final(model).model_updated_at() == now,
            final(model).model_rest() == old(model).model_rest(),
    {
        stamp_new(model, id, now);
        self.namespace(collection_name)
    }

    /// Asks for the first document of a collection that matches a filter.
    pub fn read_one(&self, collection_name: String, data_filter: bson::Document) -> (r: Query)
        ensures
            self.targets(r.namespace, collection_name@),
            r.filter == data_filter,
    {
        Query { namespace: self.namespace(collection_name), filter: data_filter }
    }

    /// Asks for an update of the first document that matches a filter, at
    /// the second `now`: the caller's stages are kept in their order and the
    /// timestamp stage is put behind them. A form of update that is neither
    /// a document nor a pipeline is an internal error, and no request is
    /// made.
    pub fn update_one_at(
        &self,
        collection_name: String,
        data_filter: bson::Document,
        update: UpdateModifications,
        now: u64,
    ) -> (r: Result<Update, Errors>)
        ensures
            match r {
                Ok(request) => self.targets(request.namespace, collection_name@) && request.filter
                    == data_filter && stamped_update(update, now) == Some(
                    stage_views(request.pipeline@),
                ),
                Err(e) => update is Other && e.is_internal("Pipeline error"@),
            },
    {
        match stamp_update(update, now) {
            Ok(pipeline) => Ok(
                Update { namespace: self.namespace(collection_name), filter: data_filter, pipeline },
            ),
            Err(e) => Err(e),
        }
    }

    /// Asks for an update of the first document that matches a filter, at
    /// the current time.
    pub fn update_one(
        &self,
        collection_name: String,
        data_filter: bson::Document,
        update: UpdateModifications,
    ) -> (r: Result<Update, Errors>)
        ensures
            match r {
                Ok(request) => self.targets(request.namespace, collection_name@) && request.filter
                    == data_filter && exists|now: u64|
                    now < CLOCK_LIMIT && #[trigger] stamped_update(update, now) == Some(
                        stage_views(request.pipeline@),
                    ),
                Err(e) => update is Other && e.is_internal("Pipeline error"@),
            },
            update is Other ==> r is Err,
    {
        let now = current_timestamp();
        self.update_one_at(collection_name, data_filter, update, now)
    }

    /// Asks for the first document of a collection that matches a filter to
    /// be deleted and returned.
    pub fn delete_one(&self, collection_name: String, data_filter: bson::Document) -> (r: Query)
        ensures
            self.targets(r.namespace, collection_name@),
            r.filter == data_filter,
    {
        Query { namespace: self.namespace(collection_name), filter: data_filter }
    }

    /// Asks for an aggregation: the caller's stages, followed by the three
    /// paging stages where paging is asked for.
    pub fn query_read(
        &self,
        collection_name: String,
        aggregate: Vec<bson::Document>,
        page: Option<u8>,
        page_size: Option<u8>,
        paging_data: bool,
    ) -> (r: Aggregation)
        ensures
            self.targets(r.namespace, collection_name@),
            stage_views(r.pipeline@) == paged_pipeline(aggregate@, page, page_size, paging_data),
    {
        let mut pipeline = given_stages(aggregate);
        if paging_data {
            let mut paging = made_stages(paging_stages(page, page_size));
            pipeline.append(&mut paging);
        }
        assert(stage_views(pipeline@) =~= paged_pipeline(aggregate@, page, page_size, paging_data));
        Aggregation { namespace: self.namespace(collection_name), pipeline }
    }
}

/// The timestamp stage is put behind the caller's stages, never before
/// them, and no stage of the caller is lost or moved.
pub proof fn timestamp_stage_is_appended(update: UpdateModifications, now: u64)
    requires
        !(update is Other),
    ensures
        stamped_update(update, now) matches Some(pipeline) && pipeline.len() > 0 && pipeline.last()
            == StageView::Made(timestamp_stage_view(now)) && pipeline.drop_last()
            == (match update {
            UpdateModifications::Document(document) => seq![StageView::Given(document)],
            UpdateModifications::Pipeline(stages) => given(stages@),
            UpdateModifications::Other => Seq::empty(),
        }),
{
    let pipeline = stamped_update(update, now)->0;
    match update {
        UpdateModifications::Document(document) => {
            assert(pipeline.drop_last() =~= seq![StageView::Given(document)]);
        },
        UpdateModifications::Pipeline(stages) => {
            assert(pipeline.drop_last() =~= given(stages@));
        },
        UpdateModifications::Other => {},
    }
}

/// The timestamp stage sets the time of the last change to the second of
/// the call, whatever that second is: as a 32-bit integer where it fits in
/// a signed one, as a 64-bit integer from then on. The integer is the
/// second itself for every second that a signed 64-bit integer can hold,
/// which is every second that the clock can show.
pub proof fn timestamp_stage_holds_the_time(now: u64)
    ensures
        timestamp_stage_view(now) == seq![
            (
                "$set"@,
                ValueView::Document(
                    seq![
                        (
                            "updated_at"@,
                            if now <= i32::MAX {
                                ValueView::Int32(now as i32)
                            } else {
                                ValueView::Int64(now as i64)
                            },
                        ),
                    ],
                ),
            ),
        ],
        now <= i32::MAX ==> (now as i32) as int == now as int,
        now <= i64::MAX ==> (now as i64) as int == now as int,
        now < CLOCK_LIMIT ==> now <= i64::MAX,
{
}

/// How many of `total` matching records the data branch holds before it is
/// trimmed: those that are left after the skipped ones, but no more than
/// the limit.
pub open spec fn fetched(total: nat, window: PageWindow) -> int {
    let left = if total > window.skip {
        total - window.skip
    } else {
        0
    };
    if left < window.limit() {
        left
    } else {
        window.limit() as int
    }
}

/// The window of a page from the first on asks for one record more than a
/// page holds, and that record is there exactly when records remain beyond
/// the page: this is what the flag for a next page reports.
pub proof fn probe_tells_of_a_next_page(total: nat, page: u8, page_size: Option<u8>)
    requires
        page >= 1,
    ensures
        ({
            let window = PageWindow::of(Some(page), page_size);
            &&& window.limit() == window.page_size + 1
            &&& window.skip == (page - 1) * window.page_size
            &&& (fetched(total, window) > window.page_size) == (total > page * window.page_size)
        }),
{
    let window = PageWindow::of(Some(page), page_size);
    let size = window.page_size as int;
    assert(0 <= (page - 1) * size <= 254 * 99 && page * size == (page - 1) * size + size)
        by (nonlinear_arith)
        requires
            1 <= page <= 255,
            0 <= size <= 99,
    ;
}

/// A page size of a hundred or more is not used: ten is.
pub proof fn oversized_page_is_ten(page: Option<u8>, asked: u8)
    requires
        asked >= PAGE_SIZE_LIMIT,
    ensures
        PageWindow::of(page, Some(asked)).page_size == 10,
        PageWindow::of(page, None).page_size == 10,
{
}

} // verus!
