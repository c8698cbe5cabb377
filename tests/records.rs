use session_gate::{
    CreateItemError, CreateItemParams, CreateItemParamsBuilderError, CreateItemsParamsBuilder,
    CreateUserError, CreateUserParams, CreateUserValidationError, DeleteItemError,
    DeleteUserError, GetItemError, GetUserError, HttpCreateUserParams, HttpPaginationParams,
    HttpUpdateUserParams, HttpUserAuthType, Item, ItemBuilder, ItemBuilderError,
    ItemsHealthError, ListItemsError, MutableParamsBuilder, MutableParamsBuilderError,
    PaginationBuilder, PaginationBuilderError, ParamsBuilder, ParamsBuilderError, Timestamp,
    UpdateItemError, UpdateItemParams, UpdateItemParamsBuilder, UpdateItemParamsBuilderError,
    UpdateUserError, UpdateUserParams, UpdateUserValidationError, User, UserAuthType,
    UsersHealthError, DEFAULT_PAGINATION_LIMIT, DEFAULT_PAGINATION_PAGE, MAX_LOCATION_LENGTH,
    MAX_NAME_LENGTH,
};

fn t(secs: i64) -> Timestamp {
    Timestamp::new(secs, 0)
}

fn long_text(len: usize) -> String {
    "x".repeat(len)
}

#[test]
fn pagination_default_builder() {
    let builder = PaginationBuilder::default();
    let pagination = builder.build().unwrap();
    assert_eq!(pagination.page(), DEFAULT_PAGINATION_PAGE);
    assert_eq!(pagination.limit(), DEFAULT_PAGINATION_LIMIT);
    assert_eq!((pagination.page(), pagination.limit()), (1, 10));
}

#[test]
fn pagination_zero_page_builder() {
    let builder_err = PaginationBuilder::new().page(0).build();
    assert_eq!(builder_err, Err(PaginationBuilderError::PageIsZero));
}

#[test]
fn pagination_zero_limit_builder() {
    let builder_err = PaginationBuilder::new().limit(0).build();
    assert_eq!(builder_err, Err(PaginationBuilderError::LimitIsZero));
}

#[test]
fn pagination_builder() {
    let pagination = PaginationBuilder::new().limit(7).page(3).build().unwrap();
    assert_eq!(pagination.page(), 3);
    assert_eq!(pagination.limit(), 7);
    assert_eq!(
        PaginationBuilder::new().page(0).limit(0).build(),
        Err(PaginationBuilderError::PageIsZero)
    );
    assert_eq!(PaginationBuilderError::LimitIsZero.status_code(), 422);
}

#[test]
fn http_pagination_params_take_defaults() {
    let p = HttpPaginationParams { page: None, limit: None }.to_pagination().unwrap();
    assert_eq!((p.page(), p.limit()), (1, 10));
    let p = HttpPaginationParams { page: Some(4), limit: None }.to_pagination().unwrap();
    assert_eq!((p.page(), p.limit()), (4, 10));
    let p = HttpPaginationParams { page: None, limit: Some(25) }.to_pagination().unwrap();
    assert_eq!((p.page(), p.limit()), (1, 25));
    assert_eq!(
        HttpPaginationParams { page: Some(0), limit: Some(0) }.to_pagination(),
        Err(PaginationBuilderError::PageIsZero)
    );
    assert_eq!(
        HttpPaginationParams { page: Some(2), limit: Some(0) }.to_pagination(),
        Err(PaginationBuilderError::LimitIsZero)
    );
}

#[test]
fn params_name_not_set() {
    let err = ParamsBuilder::default().location("Calgary".to_owned()).build();
    assert_eq!(err, Err(ParamsBuilderError::NameNotSet));
    let err = MutableParamsBuilder::default().location("Calgary".to_owned()).build();
    assert_eq!(err, Err(MutableParamsBuilderError::NameNotSet));
    let err = ParamsBuilder::new().build();
    assert_eq!(err, Err(ParamsBuilderError::NameNotSet));
}

#[test]
fn params_location_not_set() {
    let err = ParamsBuilder::default().name("tent".to_owned()).build();
    assert_eq!(err, Err(ParamsBuilderError::LocationNotSet));
    let err = MutableParamsBuilder::default().name("tent".to_owned()).build();
    assert_eq!(err, Err(MutableParamsBuilderError::LocationNotSet));
}

#[test]
fn params_ok() {
    let p = ParamsBuilder::default()
        .location("Calgary".to_owned())
        .name("tent".to_owned())
        .build()
        .unwrap();
    assert_eq!((p.name(), p.location()), ("tent", "Calgary"));
    let p = MutableParamsBuilder::new()
        .name("lamp".to_owned())
        .location("Banff".to_owned())
        .build()
        .unwrap();
    assert_eq!((p.name(), p.location()), ("lamp", "Banff"));
}

#[test]
fn create_name_not_set() {
    let err = CreateItemsParamsBuilder::default().location("Calgary".to_owned()).build();
    assert_eq!(err, Err(CreateItemParamsBuilderError::NameNotSet));
    assert_eq!(CreateItemParamsBuilderError::NameNotSet.status_code(), 422);
}

#[test]
fn create_location_not_set() {
    let err = CreateItemsParamsBuilder::default().name("tent".to_owned()).build();
    assert_eq!(err, Err(CreateItemParamsBuilderError::LocationNotSet));
}

#[test]
fn create_ok() {
    let p = CreateItemsParamsBuilder::default()
        .location("Calgary".to_owned())
        .name("tent".to_owned())
        .build()
        .unwrap();
    assert_eq!((p.name(), p.location()), ("tent", "Calgary"));
}

#[test]
fn update_name_not_set() {
    let err = UpdateItemParamsBuilder::default().location("Calgary".to_owned()).build();
    assert_eq!(err, Err(UpdateItemParamsBuilderError::NameNotSet));
    assert_eq!(UpdateItemParamsBuilderError::LocationNotSet.status_code(), 422);
}

#[test]
fn update_location_not_set() {
    let err = UpdateItemParamsBuilder::default().name("tent".to_owned()).build();
    assert_eq!(err, Err(UpdateItemParamsBuilderError::LocationNotSet));
}

#[test]
fn update_ok() {
    let p = UpdateItemParamsBuilder::default()
        .location("Calgary".to_owned())
        .name("tent".to_owned())
        .build()
        .unwrap();
    assert_eq!((p.name(), p.location()), ("tent", "Calgary"));
}

fn builder() -> ItemBuilder {
    ItemBuilder::new(7, t(100))
}

#[test]
fn item_location_not_set() {
    let err = builder().name("tent".to_owned()).build();
    assert_eq!(err, Err(ItemBuilderError::LocationNotSet));
}

#[test]
fn item_name_not_set() {
    let err = builder().location("Calgary".to_owned()).build();
    assert_eq!(err, Err(ItemBuilderError::NameNotSet));
}

#[test]
fn item_empty_location() {
    let err = builder().location(String::new()).name("tent".to_owned()).build();
    assert_eq!(err, Err(ItemBuilderError::LocationIsEmpty));
}

#[test]
fn item_empty_name() {
    let err = builder().name(String::new()).location("Calgary".to_owned()).build();
    assert_eq!(err, Err(ItemBuilderError::NameIsEmpty));
}

#[test]
fn item_long_location() {
    let location = long_text(MAX_LOCATION_LENGTH + 1);
    let err = builder().location(location.clone()).name("tent".to_owned()).build();
    assert_eq!(err, Err(ItemBuilderError::LocationTooLong { location }));
    let at_limit = builder()
        .location(long_text(MAX_LOCATION_LENGTH))
        .name("tent".to_owned())
        .build();
    assert!(at_limit.is_ok());
}

#[test]
fn item_long_name() {
    let name = long_text(MAX_NAME_LENGTH + 1);
    let err = builder().name(name.clone()).location("Calgary".to_owned()).build();
    assert_eq!(err, Err(ItemBuilderError::NameTooLong { name }));
    // The limit counts bytes: 65 two-byte characters are 130 bytes.
    let name = "é".repeat(65);
    let err = builder().name(name.clone()).location("Calgary".to_owned()).build();
    assert_eq!(err, Err(ItemBuilderError::NameTooLong { name }));
}

#[test]
fn item_id_and_time_not_set() {
    let item = builder().name("tent".to_owned()).location("Calgary".to_owned()).build().unwrap();
    assert_eq!(item.id(), 7);
    assert_eq!(item.created_at(), t(100));
    assert_eq!(item.updated_at(), t(100));
}

#[test]
fn item_updated_before_creation() {
    let err = builder()
        .name("tent".to_owned())
        .location("Calgary".to_owned())
        .created_at(t(200))
        .update_at(Timestamp::new(199, 999_999_999))
        .build();
    assert_eq!(
        err,
        Err(ItemBuilderError::UpdatedBeforeCreation {
            updated_at: Timestamp::new(199, 999_999_999),
            created_at: t(200)
        })
    );
}

#[test]
fn item_all_set() {
    let item = builder()
        .id(99)
        .name("tent".to_owned())
        .location("Calgary".to_owned())
        .created_at(t(10))
        .update_at(t(11))
        .build()
        .unwrap();
    assert_eq!(item.id(), 99);
    assert_eq!((item.name(), item.location()), ("tent", "Calgary"));
    assert_eq!((item.created_at(), item.updated_at()), (t(10), t(11)));
}

fn item() -> Item {
    let params: CreateItemParams = CreateItemsParamsBuilder::new()
        .name("tent".to_owned())
        .location("Calgary".to_owned())
        .build()
        .unwrap();
    params.try_into_item(5, t(10)).unwrap()
}

#[test]
fn item_try_update_keeps_identity() {
    let original = item();
    assert_eq!((original.id(), original.name()), (5, "tent"));
    let update: UpdateItemParams = UpdateItemParamsBuilder::new()
        .name("lamp".to_owned())
        .location("Banff".to_owned())
        .build()
        .unwrap();
    let updated = original.clone().try_update(&update, t(20)).unwrap();
    assert_eq!(updated.id(), 5);
    assert_eq!((updated.name(), updated.location()), ("lamp", "Banff"));
    assert_eq!((updated.created_at(), updated.updated_at()), (t(10), t(20)));
    let err = original.try_update(&update, t(5));
    assert_eq!(
        err,
        Err(ItemBuilderError::UpdatedBeforeCreation { updated_at: t(5), created_at: t(10) })
    );
}

fn user() -> User {
    User::new(1, "Ada".to_owned(), UserAuthType::Github, "ada-gh".to_owned(), t(10), t(10))
        .unwrap()
}

#[test]
fn name_validation() {
    let err = User::new(1, String::new(), UserAuthType::Github, "gh".to_owned(), t(1), t(1));
    assert_eq!(err, Err(CreateUserValidationError::NameIsEmpty));
    let long = long_text(MAX_NAME_LENGTH + 1);
    let err = User::new(1, long.clone(), UserAuthType::Github, "gh".to_owned(), t(1), t(1));
    assert_eq!(err, Err(CreateUserValidationError::NameTooLong { name: long }));
}

#[test]
fn name_update() {
    let mut u = user();
    assert_eq!(u.set_name(String::new(), t(20)), Err(UpdateUserValidationError::NameIsEmpty));
    let long = long_text(MAX_NAME_LENGTH + 1);
    assert_eq!(
        u.set_name(long.clone(), t(20)),
        Err(UpdateUserValidationError::NameTooLong { name: long })
    );
    assert_eq!(u.name(), "Ada");
    assert_eq!(u.updated_at(), t(10));
    u.set_name("Grace".to_owned(), t(20)).unwrap();
    assert_eq!(u.name(), "Grace");
    assert!(u.created_at() < u.updated_at());
    u.try_update(UpdateUserParams::new("Lin".to_owned()), t(30)).unwrap();
    assert_eq!((u.name(), u.updated_at()), ("Lin", t(30)));
    assert_eq!((u.id(), u.auth_type(), u.external_id()), (1, UserAuthType::Github, "ada-gh"));
}

#[test]
fn external_id_validation() {
    let err = User::new(1, "Ada".to_owned(), UserAuthType::Github, String::new(), t(1), t(1));
    assert_eq!(err, Err(CreateUserValidationError::ExternalIdIsEmpty));
    let long = long_text(MAX_LOCATION_LENGTH + 1);
    let err = User::new(1, "Ada".to_owned(), UserAuthType::Github, long.clone(), t(1), t(1));
    assert_eq!(err, Err(CreateUserValidationError::ExternalIdTooLong { external_id: long }));
}

#[test]
fn entity_updated_before_creation() {
    let err = User::new(1, "Ada".to_owned(), UserAuthType::Github, "gh".to_owned(), t(5), t(4));
    assert_eq!(
        err,
        Err(CreateUserValidationError::UpdatedBeforeCreation { updated_at: t(4), created_at: t(5) })
    );
}

#[test]
fn create_user_params_round_trip() {
    let http = HttpCreateUserParams::new("Ada".to_owned(), HttpUserAuthType::Github, "gh".to_owned());
    assert_eq!((http.name(), http.auth_type(), http.external_id()), ("Ada", HttpUserAuthType::Github, "gh"));
    let params = CreateUserParams::from_http(http);
    assert_eq!(params, CreateUserParams::new("Ada".to_owned(), UserAuthType::Github, "gh".to_owned()));
    let u = params.try_into_user(9, t(3)).unwrap();
    assert_eq!((u.id(), u.name(), u.external_id()), (9, "Ada", "gh"));
    assert_eq!((u.created_at(), u.updated_at()), (t(3), t(3)));
    assert_eq!(HttpUserAuthType::from(UserAuthType::Github), HttpUserAuthType::Github);
    assert_eq!(UserAuthType::from(HttpUserAuthType::Github), UserAuthType::Github);
    let update = UpdateUserParams::from_http(HttpUpdateUserParams::new("Bo".to_owned()));
    assert_eq!(update.name(), "Bo");
    assert_eq!(HttpUpdateUserParams::new("Bo".to_owned()).name(), "Bo");
}

#[test]
fn dao_error_statuses() {
    assert_eq!(CreateItemError::InvalidParams.status_code(), 422);
    assert_eq!(CreateItemError::AlreadyExists { id: 1 }.status_code(), 409);
    assert_eq!(CreateItemError::UnexpectedError.status_code(), 500);
    assert_eq!(GetItemError::NoSuchEntity { id: 1 }.status_code(), 404);
    assert_eq!(UpdateItemError::NoSuchEntity { id: 1 }.status_code(), 404);
    assert_eq!(UpdateItemError::InvalidParams.status_code(), 422);
    assert_eq!(DeleteItemError::NoSuchEntity { id: 1 }.status_code(), 404);
    assert_eq!(ListItemsError::UnexpectedError.status_code(), 500);
    assert_eq!(ItemsHealthError::UnexpectedError.status_code(), 500);
    assert_eq!(CreateUserError::AlreadyExists { id: 2 }.status_code(), 409);
    assert_eq!(GetUserError::UnexpectedError.status_code(), 500);
    assert_eq!(DeleteUserError::NoSuchEntity { id: 2 }.status_code(), 404);
    assert_eq!(UsersHealthError::UnexpectedError.status_code(), 500);
    assert_eq!(
        CreateUserError::from(CreateUserValidationError::NameIsEmpty),
        CreateUserError::InvalidParams
    );
    assert_eq!(
        UpdateUserError::from(UpdateUserValidationError::NameIsEmpty),
        UpdateUserError::InvalidParams
    );
}
