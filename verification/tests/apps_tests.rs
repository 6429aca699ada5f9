use kamism::api_keys::{device_log_window, err, form_status, list_scope, may_change_key, new_key_owner, ok, ok_empty, stats_card_hash, ApiKeyForm};
use kamism::apps::{
    app_message, decide_batch, decide_create, decide_delete, decide_get, decide_list, decide_status, default_password_hash,
    owner, page_window, page_window_fits, parse_status, status_in_body, status_name, AppAct, AppFacts, AppMsg, AppStatus,
    BatchFacts, BatchStatusRequest, CreateAppRequest, CreateFacts, Owner, OwnerFacts, StatusFacts,
};
use kamism::json::Json;

const SUB: &str = "67e55044-10b1-426f-9247-bb680e5fe0c8";
const ID: u128 = 0x67e5504410b1426f9247bb680e5fe0c8;

fn body_with_status(s: &str) -> Json {
    Json::Object(vec![("status".to_string(), Json::Str(s.to_string()))])
}

fn create_body(name: &str) -> CreateAppRequest {
    CreateAppRequest { app_name: name.to_string(), description: None }
}

#[test]
fn status_names() {
    assert_eq!(parse_status("active"), Some(AppStatus::Active));
    assert_eq!(parse_status("disabled"), Some(AppStatus::Disabled));
    assert_eq!(parse_status("Active"), None);
    assert_eq!(status_name(AppStatus::Disabled), "disabled");
    assert_eq!(status_in_body(&body_with_status("active")), Some(AppStatus::Active));
    assert_eq!(status_in_body(&Json::Null), None);
}

#[test]
fn app_messages() {
    assert_eq!(app_message(&AppMsg::PlanLimit { label: "免费版".to_string(), max_apps: 2 }), "免费版最多创建 2 个应用，请升级套餐");
    assert_eq!(app_message(&AppMsg::BatchUpdated(7)), "已更新 7 个应用");
    assert_eq!(app_message(&AppMsg::DeleteFailed("x".to_string())), "删除失败: x");
    assert_eq!(app_message(&AppMsg::TooMany), "单次批量操作最多 200 条");
}

#[test]
fn page_windows() {
    assert_eq!(page_window(None, None, 20, 100), (1, 20, 0));
    assert_eq!(page_window(Some(3), Some(500), 20, 100), (3, 100, 200));
    assert_eq!(page_window(Some(-4), Some(10), 20, 100), (1, 10, 0));
    assert_eq!(device_log_window(Some(2), None), (2, 10, 10));
    assert_eq!(device_log_window(Some(2), Some(80)), (2, 50, 50));
    assert!(page_window_fits(Some(2), Some(-5), 20, 100));
    assert!(!page_window_fits(Some(i64::MAX), Some(100), 20, 100));
}

#[test]
fn merchants_work_on_their_own_apps() {
    assert!(matches!(owner("merchant", SUB, true, &OwnerFacts::new(ID)), Owner::Is(x) if x == ID));
    assert!(matches!(owner("merchant", "not-a-uuid", false, &OwnerFacts::new(0)), Owner::Is(0)));
    assert!(matches!(owner("merchant", "not-a-uuid", true, &OwnerFacts::new(0)), Owner::Fail(AppMsg::InvalidUserId)));
    assert!(matches!(owner("admin", "bad", false, &OwnerFacts::new(0)), Owner::Fail(AppMsg::InvalidUserId)));
}

#[test]
fn admin_merchant_record_is_created_on_first_use() {
    let mut f = OwnerFacts::new(ID);
    assert_eq!(f.default_email, format!("{}@admin.local", SUB));
    assert!(matches!(owner("admin", SUB, false, &f), Owner::Ask(AppAct::FindMerchant { id }) if id == ID));
    f.exists = Some(false);
    assert!(matches!(owner("admin", SUB, false, &f), Owner::Ask(AppAct::FindAdmin { .. })));
    f.admin_row = Some(None);
    assert!(matches!(owner("admin", SUB, false, &f), Owner::Ask(AppAct::HashDefaultPassword)));
    f.default_hash = Some("h".to_string());
    assert!(matches!(owner("admin", SUB, false, &f), Owner::Ask(AppAct::NewApiKey)));
    f.api_key = Some("km_x".to_string());
    assert!(matches!(owner("admin", SUB, false, &f), Owner::Ask(AppAct::EncryptApiKey { .. })));
    f.encrypted_key = Some(None);
    assert!(matches!(owner("admin", SUB, false, &f), Owner::Fail(AppMsg::ApiKeyEncryptFailed)));
    f.encrypted_key = Some(Some("ek".to_string()));
    assert!(matches!(owner("admin", SUB, false, &f), Owner::Ask(AppAct::EncryptEmail { ref email, .. }) if email.ends_with("@admin.local")));
    f.encrypted_email = Some(Some("ee".to_string()));
    match owner("admin", SUB, false, &f) {
        Owner::Ask(AppAct::InsertMerchant { username, password_hash, api_key, .. }) => {
            assert_eq!(username, "admin");
            assert_eq!(password_hash, "h");
            assert_eq!(api_key, "km_x");
        }
        _ => panic!("expected an insertion"),
    }
    f.inserted = Some(Some("dup".to_string()));
    assert!(matches!(owner("admin", SUB, false, &f), Owner::Fail(AppMsg::AdminMerchantFailed(ref e)) if e == "dup"));
    f.inserted = Some(None);
    assert!(matches!(owner("admin", SUB, false, &f), Owner::Ask(AppAct::SaveAdminApiKey { .. })));
    f.admin_updated = true;
    assert!(matches!(owner("admin", SUB, false, &f), Owner::Is(x) if x == ID));
}

#[test]
fn default_password_is_hashed() {
    let h = default_password_hash();
    assert_eq!(h.len(), 60);
    assert!(h.starts_with("$2b$12$"));
    assert!(h[7..].chars().all(|c| c == '.' || c == '/' || c.is_ascii_alphanumeric()));
    assert_ne!(h, "AdminAuto@123");
    assert!(bcrypt::verify("AdminAuto@123", &h).unwrap());
    assert!(!bcrypt::verify("guessable", &h).unwrap());
}

#[test]
fn listing_reading_deleting() {
    let f = OwnerFacts::new(ID);
    assert!(matches!(decide_list("merchant", SUB, &f), AppAct::ReplyList { merchant_id } if merchant_id == ID));
    let mut a = AppFacts { owner: OwnerFacts::new(ID), found: None, deleted: None };
    assert!(matches!(decide_get("merchant", SUB, 5, &a), AppAct::FindApp { app_id: 5, .. }));
    a.found = Some(false);
    assert!(matches!(decide_get("merchant", SUB, 5, &a), AppAct::Reply(false, AppMsg::NotFound)));
    a.found = Some(true);
    assert!(matches!(decide_get("merchant", SUB, 5, &a), AppAct::ReplyApp));
    assert!(matches!(decide_delete("merchant", SUB, 5, &a), AppAct::DeleteApp { app_id: 5, .. }));
    a.deleted = Some(Ok(0));
    assert!(matches!(decide_delete("merchant", SUB, 5, &a), AppAct::Reply(false, AppMsg::NotFoundOrForbidden)));
    a.deleted = Some(Ok(1));
    assert!(matches!(decide_delete("merchant", SUB, 5, &a), AppAct::Reply(true, AppMsg::Deleted)));
    a.deleted = Some(Err("e".to_string()));
    assert!(matches!(decide_delete("merchant", SUB, 5, &a), AppAct::Reply(false, AppMsg::DeleteFailed(_))));
}

#[test]
fn creating_within_the_plan() {
    let mut f = CreateFacts::new(OwnerFacts::new(ID));
    assert!(matches!(decide_create("merchant", SUB, &create_body("  "), &f), AppAct::Reply(false, AppMsg::NameEmpty)));
    assert!(matches!(decide_create("merchant", SUB, &create_body("a"), &f), AppAct::FindPlan { .. }));
    f.plan = Some(None);
    assert!(matches!(decide_create("merchant", SUB, &create_body("a"), &f), AppAct::LoadPlanConfig { ref plan } if plan == "free"));
    f.config = Some(("免费版".to_string(), 2));
    assert!(matches!(decide_create("merchant", SUB, &create_body("a"), &f), AppAct::CountApps { .. }));
    f.count = Some(2);
    assert!(matches!(decide_create("merchant", SUB, &create_body("a"), &f), AppAct::Reply(false, AppMsg::PlanLimit { max_apps: 2, .. })));
    f.count = Some(1);
    assert!(matches!(decide_create("merchant", SUB, &create_body("a"), &f), AppAct::InsertApp { .. }));
    f.config = Some(("企业版".to_string(), -1));
    f.count = Some(1000);
    assert!(matches!(decide_create("merchant", SUB, &create_body("a"), &f), AppAct::InsertApp { .. }));
    f.created = Some(Some("e".to_string()));
    assert!(matches!(decide_create("merchant", SUB, &create_body("a"), &f), AppAct::Reply(false, AppMsg::CreateFailed(_))));
}

#[test]
fn merchant_cannot_enable_admin_disabled_app() {
    let mut f = StatusFacts { owner: OwnerFacts::new(ID), admin_disabled: None, updated: None };
    let on = body_with_status("active");
    assert!(matches!(decide_status("merchant", SUB, 9, &on, &f), AppAct::FindAdminDisabled { app_id: 9, .. }));
    f.admin_disabled = Some(Some(true));
    assert!(matches!(decide_status("merchant", SUB, 9, &on, &f), AppAct::Reply(false, AppMsg::AdminDisabled)));
    f.admin_disabled = Some(None);
    assert!(matches!(decide_status("merchant", SUB, 9, &on, &f), AppAct::Reply(false, AppMsg::NotFoundOrForbidden)));
    f.admin_disabled = Some(Some(false));
    assert!(matches!(decide_status("merchant", SUB, 9, &on, &f), AppAct::SetStatus { status: AppStatus::Active, .. }));
    assert!(matches!(decide_status("merchant", SUB, 9, &body_with_status("x"), &f), AppAct::Reply(false, AppMsg::InvalidStatus)));
}

#[test]
fn admin_mark_follows_the_status() {
    let mut o = OwnerFacts::new(ID);
    o.exists = Some(true);
    let f = StatusFacts { owner: o, admin_disabled: None, updated: None };
    assert!(matches!(decide_status("admin", SUB, 9, &body_with_status("disabled"), &f),
        AppAct::SetStatusAsAdmin { status: AppStatus::Disabled, admin_disabled: true, .. }));
    assert!(matches!(decide_status("admin", SUB, 9, &body_with_status("active"), &f),
        AppAct::SetStatusAsAdmin { status: AppStatus::Active, admin_disabled: false, .. }));
}

#[test]
fn batch_limits() {
    let f = BatchFacts { owner: OwnerFacts::new(ID), updated: None };
    let empty = BatchStatusRequest { ids: vec![], status: "active".to_string() };
    assert!(matches!(decide_batch("merchant", SUB, &empty, &f), AppAct::Reply(false, AppMsg::IdsEmpty)));
    let many = BatchStatusRequest { ids: (0..201).collect(), status: "active".to_string() };
    assert!(matches!(decide_batch("merchant", SUB, &many, &f), AppAct::Reply(false, AppMsg::TooMany)));
    let ok200 = BatchStatusRequest { ids: (0..200).collect(), status: "active".to_string() };
    assert!(matches!(decide_batch("merchant", SUB, &ok200, &f), AppAct::BatchEnable { .. }));
    let off = BatchStatusRequest { ids: vec![1], status: "disabled".to_string() };
    assert!(matches!(decide_batch("merchant", SUB, &off, &f), AppAct::BatchSet { status: AppStatus::Disabled, .. }));
    let bad = BatchStatusRequest { ids: vec![1], status: "x".to_string() };
    assert!(matches!(decide_batch("merchant", SUB, &bad, &f), AppAct::Reply(false, AppMsg::InvalidStatus)));
    let done = BatchFacts { owner: OwnerFacts::new(ID), updated: Some(Ok(3)) };
    assert!(matches!(decide_batch("merchant", SUB, &off, &done), AppAct::Reply(true, AppMsg::BatchUpdated(3))));
}

#[test]
fn api_key_pages() {
    assert_eq!(list_scope("admin", "whatever"), None);
    assert_eq!(list_scope("merchant", SUB), Some(ID));
    assert_eq!(list_scope("merchant", "bad"), Some(0));
    assert_eq!(new_key_owner("merchant", SUB), Some(ID));
    assert_eq!(new_key_owner("admin", SUB), None);
    assert_eq!(new_key_owner("merchant", "bad"), None);
    assert_eq!(stats_card_hash(None), "");
    assert_eq!(stats_card_hash(Some("h".to_string())), "h");
    let r = ok(Json::Bool(true));
    assert_eq!(r.code, 200);
    assert!(matches!(r.data, Some(Json::Bool(true))));
    assert!(ok_empty().data.is_none());
    let e = err("bad");
    assert_eq!(e.code, 400);
    assert_eq!(e.msg.as_deref(), Some("bad"));
}

#[test]
fn api_key_status_defaults_to_active() {
    let mut form = ApiKeyForm {
        name: "k".to_string(), encrypt_code: None, sign_code: None, join_template: None, request_method: None,
        request_base_url: None, request_success_check: None, params_template: None, response_template: None,
        status: None, encrypt_enabled: None, encrypt_algorithm: None, encrypt_mode: None, encrypt_padding: None,
        encrypt_key: None, encrypt_iv_source: None, encrypt_param_name: None, encrypt_encoding: None,
        encrypt_charset: None, decrypt_code: None,
    };
    assert_eq!(form_status(&form), "active");
    form.status = Some("disabled".to_string());
    assert_eq!(form_status(&form), "disabled");
}

#[test]
fn merchants_change_only_their_own_keys() {
    let me = "67e55044-10b1-426f-9247-bb680e5fe0c8";
    let my_id: u128 = 0x67e5504410b1426f9247bb680e5fe0c8;
    assert!(may_change_key("merchant", me, Some(my_id)));
    assert!(!may_change_key("merchant", me, Some(my_id + 1)));
    assert!(!may_change_key("merchant", me, None));
    assert!(may_change_key("admin", me, Some(my_id + 1)));
    assert!(may_change_key("admin", me, None));
}
