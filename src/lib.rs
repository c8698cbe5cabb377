//! Application-side protocol of an OAuth2 "login with provider" gate, with the
//! request parameters and records of the CRUD resources behind it.
//!
//! Everything here is synchronous and free of I/O: the handlers that talk to the
//! session store and to the provider run each step of the flows in this crate
//! and hand back what came out of the outside call.

mod auth_errors;
mod callback;
mod config;
mod dao_errors;
mod guard;
mod items;
mod items_table;
mod laws;
mod login;
mod logout;
mod mocked;
mod pagination;
mod params;
mod record;
mod session;
mod users;
mod users_table;

pub use auth_errors::{
    callback_error_status, AuthCallbackError, LoginError, LogoutError,
    STATUS_INTERNAL_SERVER_ERROR, STATUS_UNPROCESSABLE_ENTITY,
};
pub use callback::{
    callback_accepts, callback_finish, callback_next, callback_start, callback_started,
    callback_step, callback_trace, AuthCallbackQuery, CallbackAction, CallbackEvent,
    CallbackState, CallbackStep, CallbackSuccess, IdentityOutcome,
};
pub use config::{
    Authentication, ItemsDaoType, LogFormat, LogLevel, Logging, SessionStore, SessionStoreType,
    UsersDaoType,
};
pub use dao_errors::{
    CreateItemError, CreateUserError, DeleteItemError, DeleteUserError, GetItemError,
    GetUserError, ItemsHealthError, ListItemsError, UpdateItemError, UpdateUserError,
    UsersHealthError, STATUS_CONFLICT, STATUS_NOT_FOUND,
};
pub use guard::{identity_from_session, identity_of, identity_session_id};
pub use items::{
    item_draft_valid, item_of_draft, item_result, new_item_draft, updated_item_draft, Item,
    ItemBuilder, ItemBuilderError, ItemDraft, ItemView,
};
pub use items_table::{is_arrangement, item_views, page_of, sorted_by_update, ItemsHashMapDao};
pub use laws::{
    lemma_authenticated_cookie_is_new, lemma_forged_state_is_refused, lemma_logout_is_idempotent,
    lemma_pending_session_is_consumed,
};
pub use login::{login_respond, login_result, LoginRedirect};
pub use logout::{
    logout_accepts, logout_finish, logout_next, logout_start, logout_started, logout_step,
    logout_trace, LogoutAction, LogoutEvent, LogoutState, LogoutStep,
};
pub use mocked::{
    mock_item_draft, mock_user_view, ItemsMockedDao, UsersMockedDao, MOCK_ITEM_LOCATION,
    MOCK_ITEM_NAME, MOCK_USER_EXTERNAL_ID, MOCK_USER_NAME, NIL_ID, TAKEN_EXTERNAL_ID,
};
pub use pagination::{
    page_offset, pagination_result, requested_view, HttpPaginationParams, Pagination,
    PaginationBuilder, PaginationBuilderError, PaginationView, DEFAULT_PAGINATION_LIMIT,
    DEFAULT_PAGINATION_PAGE,
};
pub use params::{
    opt_view, CreateItemParams, CreateItemParamsBuilderError, CreateItemsParamsBuilder,
    HttpCreateItemParams, HttpUpdateItemParams, MutableParams, MutableParamsBuilder,
    MutableParamsBuilderError, NameLocationDraft, NameLocationView, Params, ParamsBuilder,
    ParamsBuilderError, UpdateItemParams, UpdateItemParamsBuilder, UpdateItemParamsBuilderError,
};
pub use record::{
    byte_len, is_before, text_byte_len, Timestamp, MAX_LOCATION_LENGTH, MAX_NAME_LENGTH,
};
pub use session::{
    authenticated_session, cookie_value_of, pending_session, session_cookie, session_cookie_for,
    session_id_from_cookie, AuthRedirect, HomeRedirect, LoadOutcome, SessionCookie,
    SessionValues, StoreOutcome, UserInfo, AUTH_PATH, COOKIE_NAME, CSRF_TOKEN, HOME_PATH,
    PROFILE_SCOPE, USER_INFO,
};
pub use users::{
    auth_type_of, name_valid, new_user_view, rename_result, user_result, user_valid,
    CreateUserParams, CreateUserValidationError, CreateUserView, HttpCreateUserParams,
    HttpUpdateUserParams, HttpUserAuthType, UpdateUserParams, UpdateUserValidationError, User,
    UserAuthType, UserView, MAX_EXTERNAL_ID_LENGTH,
};
pub use users_table::UsersHashMapDao;
