use bson::Bson;
use mongo_crud::database::core_service::{
    given_stages, made_stages, paging_stages, stamp_new, stamp_update, timestamp_stage,
    PageWindow, Stage, UpdateModifications, DEFAULT_PAGE_SIZE, PAGE_SIZE_LIMIT,
};
use mongo_crud::database::document::{StageDocument, Value};
use mongo_crud::database::mongo_client::{build_mongo_client, MongoClient};
use mongo_crud::handlers::error_handler::{store_outcome, Errors, HttpErrors};
use mongo_crud::helpers::clock::{current_timestamp, CLOCK_LIMIT};
use mongo_crud::helpers::enums::UserStatus;
use mongo_crud::models::user::{UserCreateModel, UserModel};
use mongo_crud::traits::model::ModelTrait;

fn doc(entries: Vec<(&str, Value)>) -> StageDocument {
    let mut document = StageDocument::new();
    for (key, value) in entries {
        document.insert(key.to_string(), value);
    }
    document
}

fn given(entries: Vec<(&str, Bson)>) -> bson::Document {
    let mut document = bson::Document::new();
    for (key, value) in entries {
        document.insert(key, value);
    }
    document
}

fn with_handle(check: fn(MongoClient)) {
    let runtime = tokio::runtime::Builder::new_current_thread().enable_all().build().unwrap();
    runtime.block_on(async {
        let client = mongodb::Client::with_uri_str("mongodb://localhost:27017").await.ok();
        let handle =
            build_mongo_client("mongodb://localhost:27017".to_string(), "shop".to_string(), client)
                .unwrap();
        check(handle);
    });
}

fn facet(skip: i32, limit: i32) -> StageDocument {
    doc(vec![(
        "$facet",
        Value::Document(doc(vec![
            (
                "data",
                Value::Array(vec![
                    Value::Document(doc(vec![("$skip", Value::Int32(skip))])),
                    Value::Document(doc(vec![("$limit", Value::Int32(limit))])),
                ]),
            ),
            (
                "total_count",
                Value::Array(vec![Value::Document(doc(vec![("$count", Value::text("total"))]))]),
            ),
        ])),
    )])
}

fn metadata(page: i32, page_size: i32) -> StageDocument {
    let total_records = Value::Document(doc(vec![(
        "$ifNull",
        Value::Array(vec![
            Value::Document(doc(vec![(
                "$arrayElemAt",
                Value::Array(vec![Value::text("$total_count.total"), Value::Int32(0)]),
            )])),
            Value::Int32(0),
        ]),
    )]));
    let has_next_page = Value::Document(doc(vec![(
        "$gt",
        Value::Array(vec![
            Value::Document(doc(vec![("$size", Value::text("$data"))])),
            Value::Int32(page_size),
        ]),
    )]));
    doc(vec![(
        "$addFields",
        Value::Document(doc(vec![(
            "metadata",
            Value::Document(doc(vec![
                ("current_page", Value::Int32(page)),
                ("page_size", Value::Int32(page_size)),
                ("total_records", total_records),
                ("has_next_page", has_next_page),
            ])),
        )])),
    )])
}

fn project(page_size: i32) -> StageDocument {
    doc(vec![(
        "$project",
        Value::Document(doc(vec![
            (
                "data",
                Value::Document(doc(vec![(
                    "$slice",
                    Value::Array(vec![Value::text("$data"), Value::Int32(page_size)]),
                )])),
            ),
            ("metadata", Value::Int32(1)),
        ])),
    )])
}

fn stamp(seconds: Value) -> StageDocument {
    doc(vec![("$set", Value::Document(doc(vec![("updated_at", seconds)])))])
}

fn served(total: i64, window: &PageWindow) -> (i64, bool) {
    let left = if total > window.skip as i64 { total - window.skip as i64 } else { 0 };
    let fetched = left.min(window.page_size as i64 + 1);
    (fetched.min(window.page_size as i64), fetched > window.page_size as i64)
}

#[test]
fn page_size_of_150_becomes_10() {
    let window = PageWindow::new(Some(1), Some(150));
    assert_eq!(window.page_size, 10);
    assert_eq!(window.page, 1);
    assert_eq!(window.skip, 0);
    assert_eq!(paging_stages(Some(1), Some(150)), vec![facet(0, 11), metadata(1, 10), project(10)]);
}

#[test]
fn page_size_is_clamped_at_the_limit() {
    assert_eq!(PAGE_SIZE_LIMIT, 100);
    assert_eq!(DEFAULT_PAGE_SIZE, 10);
    assert_eq!(PageWindow::new(None, Some(99)).page_size, 99);
    assert_eq!(PageWindow::new(None, Some(100)).page_size, 10);
    assert_eq!(PageWindow::new(None, Some(255)).page_size, 10);
    assert_eq!(PageWindow::new(None, Some(0)).page_size, 0);
    assert_eq!(PageWindow::new(None, None), PageWindow { page: 1, page_size: 10, skip: 0 });
}

#[test]
fn skip_is_the_pages_before_times_the_page_size() {
    assert_eq!(PageWindow::new(Some(3), Some(10)).skip, 20);
    assert_eq!(PageWindow::new(Some(255), Some(99)).skip, 25_146);
    assert_eq!(PageWindow::new(Some(7), None), PageWindow { page: 7, page_size: 10, skip: 60 });
    assert_eq!(PageWindow::new(Some(0), Some(25)), PageWindow { page: 0, page_size: 25, skip: -25 });
}

#[test]
fn first_page_of_25_records_has_a_next_page() {
    let window = PageWindow::new(Some(1), Some(10));
    assert_eq!(paging_stages(Some(1), Some(10)), vec![facet(0, 11), metadata(1, 10), project(10)]);
    assert_eq!(served(25, &window), (10, true));
}

#[test]
fn third_page_of_25_records_has_no_next_page() {
    let window = PageWindow::new(Some(3), Some(10));
    assert_eq!(paging_stages(Some(3), Some(10)), vec![facet(20, 11), metadata(3, 10), project(10)]);
    assert_eq!(served(25, &window), (5, false));
    let beyond = PageWindow::new(Some(4), Some(10));
    assert_eq!(served(25, &beyond), (0, false));
    let second = PageWindow::new(Some(2), Some(10));
    assert_eq!(served(25, &second), (10, true));
}

#[test]
fn timestamp_stage_sets_updated_at() {
    assert_eq!(timestamp_stage(1_700_000_000), stamp(Value::Int32(1_700_000_000)));
    assert_eq!(timestamp_stage(0), stamp(Value::Int32(0)));
    assert_eq!(timestamp_stage(2_147_483_647), stamp(Value::Int32(2_147_483_647)));
    assert_eq!(timestamp_stage(2_147_483_648), stamp(Value::Int64(2_147_483_648)));
    assert_eq!(timestamp_stage(4_294_967_295), stamp(Value::Int64(4_294_967_295)));
    assert_eq!(timestamp_stage(4_294_967_296), stamp(Value::Int64(4_294_967_296)));
    assert_eq!(timestamp_stage(4_294_967_296 + 5), stamp(Value::Int64(4_294_967_301)));
    assert_eq!(
        timestamp_stage(185_542_587_187_199),
        stamp(Value::Int64(185_542_587_187_199))
    );
}

#[test]
fn single_update_becomes_a_pipeline_of_two() {
    let change = given(vec![(
        "$set",
        Bson::Document(given(vec![("price", Bson::Double(9.5))])),
    )]);
    let pipeline = stamp_update(UpdateModifications::Document(change.clone()), 1_700_000_000).unwrap();
    assert_eq!(
        pipeline,
        vec![Stage::Given(change), Stage::Made(stamp(Value::Int32(1_700_000_000)))]
    );
}

#[test]
fn pipeline_gets_the_timestamp_stage_at_its_end() {
    let first = given(vec![("$set", Bson::Document(given(vec![("a", Bson::Int32(1))])))]);
    let second = given(vec![("$unset", Bson::from("b"))]);
    let pipeline = stamp_update(
        UpdateModifications::Pipeline(vec![first.clone(), second.clone()]),
        42,
    )
    .unwrap();
    assert_eq!(
        pipeline,
        vec![Stage::Given(first), Stage::Given(second), Stage::Made(stamp(Value::Int32(42)))]
    );
    let alone = stamp_update(UpdateModifications::Pipeline(Vec::new()), 42).unwrap();
    assert_eq!(alone, vec![Stage::Made(stamp(Value::Int32(42)))]);
}

#[test]
fn unrecognised_update_is_a_pipeline_error() {
    assert_eq!(
        stamp_update(UpdateModifications::Other, 42),
        Err(Errors::InternalError("Pipeline error".to_string()))
    );
}

#[test]
fn stages_are_handed_on_in_their_order() {
    let first = given(vec![("$match", Bson::Document(given(vec![("a", Bson::Int32(1))])))]);
    let second = given(vec![("$count", Bson::from("n"))]);
    assert_eq!(
        given_stages(vec![first.clone(), second.clone()]),
        vec![Stage::Given(first), Stage::Given(second)]
    );
    assert_eq!(given_stages(Vec::new()), Vec::new());
    assert_eq!(
        made_stages(vec![project(5), facet(0, 6)]),
        vec![Stage::Made(project(5)), Stage::Made(facet(0, 6))]
    );
}

#[test]
fn stamp_new_overwrites_what_the_caller_supplied() {
    let mut user = UserModel {
        id: "chosen-by-caller".to_string(),
        first_name: "Ann".to_string(),
        last_name: "Lee".to_string(),
        user_status: UserStatus::Inactive,
        created_at: 5,
        updated_at: 6,
        is_deleted: true,
    };
    stamp_new(&mut user, "0123456789abcdef01234567".to_string(), 1_700_000_000);
    assert_eq!(user.id, "0123456789abcdef01234567");
    assert_eq!(user.created_at, 1_700_000_000);
    assert_eq!(user.updated_at, 1_700_000_000);
    assert_eq!(user.first_name, "Ann");
    assert_eq!(user.last_name, "Lee");
    assert_eq!(user.user_status, UserStatus::Inactive);
    assert!(user.is_deleted);
}

#[test]
fn create_one_stamps_the_record() {
    with_handle(|handle| {
        let mut user =
            UserCreateModel { first_name: "Ann".to_string(), last_name: "Lee".to_string() }
                .get_user_model();
        user.id = "chosen-by-caller".to_string();
        user.created_at = 1;
        user.updated_at = 2;
        let before = current_timestamp();
        let target = handle.create_one("users".to_string(), &mut user);
        assert_eq!(target.database, "shop");
        assert_eq!(target.collection, "users");
        assert_eq!(user.id.len(), 24);
        assert!(user.id.chars().all(|c| c.is_ascii_digit() || ('a'..='f').contains(&c)));
        assert_eq!(user.created_at, user.updated_at);
        assert!(user.created_at >= before);
        assert!(user.created_at < CLOCK_LIMIT);
        assert_eq!(user.first_name, "Ann");
        let mut other = UserModel::default();
        handle.create_one("users".to_string(), &mut other);
        assert_ne!(other.id, user.id);
    });
}

#[test]
fn create_one_with_uses_the_given_identifier_and_time() {
    with_handle(|handle| {
        let mut user = UserModel::default();
        let target = handle.create_one_with(
            "users".to_string(),
            &mut user,
            "aaaaaaaaaaaaaaaaaaaaaaaa".to_string(),
            77,
        );
        assert_eq!(target.collection, "users");
        assert_eq!(user.id, "aaaaaaaaaaaaaaaaaaaaaaaa");
        assert_eq!(user.created_at, 77);
        assert_eq!(user.updated_at, 77);
    });
}

#[test]
fn read_one_and_delete_one_name_the_collection_and_keep_the_filter() {
    with_handle(|handle| {
        let filter = given(vec![("_id", Bson::from("abc")), ("score", Bson::Double(0.5))]);
        let read = handle.read_one("users".to_string(), filter.clone());
        assert_eq!(read.namespace.database, "shop");
        assert_eq!(read.namespace.collection, "users");
        assert_eq!(read.filter, filter);
        let delete = handle.delete_one("orders".to_string(), filter.clone());
        assert_eq!(delete.namespace.database, "shop");
        assert_eq!(delete.namespace.collection, "orders");
        assert_eq!(delete.filter, filter);
        assert_eq!(handle.namespace("x".to_string()).collection, "x");
    });
}

#[test]
fn update_one_appends_the_timestamp_stage() {
    with_handle(|handle| {
        let filter = given(vec![("_id", Bson::from("abc"))]);
        let change = given(vec![("$set", Bson::Document(given(vec![("a", Bson::Int32(1))])))]);
        let request = handle
            .update_one_at(
                "users".to_string(),
                filter.clone(),
                UpdateModifications::Document(change.clone()),
                99,
            )
            .unwrap();
        assert_eq!(request.namespace.database, "shop");
        assert_eq!(request.namespace.collection, "users");
        assert_eq!(request.filter, filter);
        assert_eq!(
            request.pipeline,
            vec![Stage::Given(change.clone()), Stage::Made(stamp(Value::Int32(99)))]
        );
        let before = current_timestamp();
        let now = handle
            .update_one(
                "users".to_string(),
                filter.clone(),
                UpdateModifications::Pipeline(vec![change.clone()]),
            )
            .unwrap();
        let after = current_timestamp();
        assert_eq!(now.pipeline.len(), 2);
        assert_eq!(now.pipeline[0], Stage::Given(change));
        assert!((before..=after)
            .any(|second| now.pipeline[1] == Stage::Made(stamp(Value::from_u64(second)))));
    });
}

#[test]
fn update_one_refuses_an_unrecognised_update() {
    with_handle(|handle| {
        let filter = given(vec![("_id", Bson::from("abc"))]);
        assert_eq!(
            handle.update_one("users".to_string(), filter.clone(), UpdateModifications::Other),
            Err(Errors::InternalError("Pipeline error".to_string()))
        );
        assert_eq!(
            handle.update_one_at("users".to_string(), filter, UpdateModifications::Other, 1),
            Err(Errors::InternalError("Pipeline error".to_string()))
        );
    });
}

#[test]
fn query_read_without_paging_keeps_the_callers_stages() {
    with_handle(|handle| {
        let stages = vec![
            given(vec![(
                "$match",
                Bson::Document(given(vec![("is_deleted", Bson::Boolean(false))])),
            )]),
            given(vec![("$count", Bson::from("n"))]),
        ];
        let request = handle.query_read("users".to_string(), stages.clone(), Some(2), Some(5), false);
        assert_eq!(request.namespace.database, "shop");
        assert_eq!(request.namespace.collection, "users");
        assert_eq!(
            request.pipeline,
            vec![Stage::Given(stages[0].clone()), Stage::Given(stages[1].clone())]
        );
    });
}

#[test]
fn query_read_with_paging_appends_three_stages() {
    with_handle(|handle| {
        let stages = vec![given(vec![(
            "$match",
            Bson::Document(given(vec![("is_deleted", Bson::Boolean(false))])),
        )])];
        let request = handle.query_read("users".to_string(), stages.clone(), Some(3), Some(20), true);
        assert_eq!(
            request.pipeline,
            vec![
                Stage::Given(stages[0].clone()),
                Stage::Made(facet(40, 21)),
                Stage::Made(metadata(3, 20)),
                Stage::Made(project(20)),
            ]
        );
        let defaults = handle.query_read("users".to_string(), Vec::new(), None, None, true);
        assert_eq!(
            defaults.pipeline,
            vec![
                Stage::Made(facet(0, 11)),
                Stage::Made(metadata(1, 10)),
                Stage::Made(project(10)),
            ]
        );
        let clamped = handle.query_read("users".to_string(), Vec::new(), Some(2), Some(150), true);
        assert_eq!(
            clamped.pipeline,
            vec![
                Stage::Made(facet(10, 11)),
                Stage::Made(metadata(2, 10)),
                Stage::Made(project(10)),
            ]
        );
    });
}

#[test]
fn store_outcome_hands_success_on_and_wraps_failure() {
    assert_eq!(store_outcome(Ok::<u32, String>(7)), Ok(7));
    assert_eq!(
        store_outcome(Err::<u32, String>("connection reset".to_string())),
        Err(Errors::InternalError("connection reset".to_string()))
    );
}

#[test]
fn errors_describe_themselves() {
    assert_eq!(Errors::InternalError("boom".to_string()).message(), "boom");
    assert_eq!(Errors::HttpError(HttpErrors::Unauthorized).message(), "Unauthorized");
    assert_eq!(Errors::HttpError(HttpErrors::BadRequest).message(), "Bad request");
}

#[test]
fn user_model_setters_change_one_field_each() {
    let mut user = UserModel::default();
    assert_eq!(user.id, "");
    assert_eq!(user.user_status, UserStatus::Active);
    assert_eq!(UserStatus::default(), UserStatus::Active);
    user.set_id("id-1".to_string());
    user.set_created_at(10);
    user.set_updated_at(20);
    assert_eq!(user.id, "id-1");
    assert_eq!(user.created_at, 10);
    assert_eq!(user.updated_at, 20);
    assert_eq!(user.first_name, "");
    assert!(!user.is_deleted);
}

#[test]
fn get_user_model_takes_the_names_and_blanks_the_rest() {
    let input = UserCreateModel { first_name: "Ann".to_string(), last_name: "Lee".to_string() };
    let user = input.get_user_model();
    assert_eq!(user.first_name, "Ann");
    assert_eq!(user.last_name, "Lee");
    assert_eq!(user.id, "");
    assert_eq!(user.user_status, UserStatus::Active);
    assert_eq!(user.created_at, 0);
    assert_eq!(user.updated_at, 0);
    assert!(!user.is_deleted);
}

#[test]
fn update_after_the_32_bit_seconds_run_out_still_holds_the_second() {
    let change = given(vec![("$set", Bson::Document(given(vec![("a", Bson::Int32(1))])))]);
    let pipeline = stamp_update(UpdateModifications::Document(change.clone()), 4_294_967_296).unwrap();
    assert_eq!(
        pipeline,
        vec![Stage::Given(change), Stage::Made(stamp(Value::Int64(4_294_967_296)))]
    );
}
