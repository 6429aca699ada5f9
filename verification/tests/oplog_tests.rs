use kamism::oplog::{classify_action, classify_module, classify_user, op_log_entry, HttpMethod};

fn action(m: HttpMethod, p: &str) -> (String, String) {
    classify_action(m, p)
}

#[test]
fn login_is_logged_whatever_the_method() {
    for m in [HttpMethod::Get, HttpMethod::Post, HttpMethod::Delete, HttpMethod::Other] {
        assert_eq!(action(m, "/api/auth/login"), ("login".to_string(), "登录系统".to_string()));
    }
    assert_eq!(classify_module("/api/auth/login"), "认证");
}

#[test]
fn auth_routes() {
    assert_eq!(action(HttpMethod::Post, "/api/auth/register").0, "register");
    assert_eq!(action(HttpMethod::Post, "/api/auth/logout").1, "退出登录");
    assert_eq!(action(HttpMethod::Post, "/api/auth/reset-password").0, "reset_password");
}

#[test]
fn merchant_admin_routes() {
    assert_eq!(action(HttpMethod::Put, "/api/admin/merchants/1/plan"), ("update_plan".to_string(), "修改商户套餐".to_string()));
    assert_eq!(action(HttpMethod::Put, "/api/admin/merchants/1/status").0, "update_status");
    assert_eq!(action(HttpMethod::Post, "/api/admin/merchants").1, "新建商户");
    assert_eq!(action(HttpMethod::Put, "/api/admin/merchants/1").1, "修改商户信息");
    assert_eq!(classify_module("/api/admin/merchants/1"), "商户管理");
}

#[test]
fn apps_cards_keys() {
    assert_eq!(action(HttpMethod::Post, "/api/apps"), ("create".to_string(), "新建应用".to_string()));
    assert_eq!(action(HttpMethod::Delete, "/api/apps/3").1, "删除应用");
    assert_eq!(action(HttpMethod::Post, "/api/cards/batch").1, "批量创建卡密");
    assert_eq!(action(HttpMethod::Delete, "/api/cards/batch").1, "批量删除卡密");
    assert_eq!(action(HttpMethod::Put, "/api/cards/9").1, "修改卡密");
    assert_eq!(action(HttpMethod::Delete, "/api/keys/9").1, "删除API密钥");
    assert_eq!(classify_module("/api/cards/9"), "卡密管理");
    assert_eq!(classify_module("/api/keys"), "API管理");
}

#[test]
fn blacklist_and_whitelist() {
    assert_eq!(action(HttpMethod::Post, "/api/blacklist"), ("add".to_string(), "添加黑名单".to_string()));
    assert_eq!(action(HttpMethod::Delete, "/api/blacklist/5").1, "移除黑名单");
    // the IP list of the black list falls through to the generic rule
    assert_eq!(action(HttpMethod::Post, "/api/blacklist/ips"), ("create".to_string(), "新建数据: /api/blacklist/ips".to_string()));
    assert_eq!(action(HttpMethod::Delete, "/api/whitelist/2").1, "移除白名单");
    assert_eq!(classify_module("/api/admin/blacklist"), "管理员黑名单");
    assert_eq!(classify_module("/api/blacklist"), "风控管理");
}

#[test]
fn public_api_routes() {
    assert_eq!(action(HttpMethod::Post, "/api/v1/activate").0, "activate");
    assert_eq!(action(HttpMethod::Post, "/api/v1/verify").1, "接口验证");
    assert_eq!(action(HttpMethod::Post, "/api/ts/sign").1, "接口签名");
    assert_eq!(classify_module("/api/v1/heartbeat"), "接口调用-心跳");
    assert_eq!(classify_module("/api/ts/decrypt"), "接口调用-解密");
}

#[test]
fn generic_fallbacks() {
    assert_eq!(action(HttpMethod::Post, "/api/x"), ("create".to_string(), "新建数据: /api/x".to_string()));
    assert_eq!(action(HttpMethod::Patch, "/api/x"), ("update".to_string(), "修改数据: /api/x".to_string()));
    assert_eq!(action(HttpMethod::Delete, "/api/x"), ("delete".to_string(), "删除数据: /api/x".to_string()));
    assert_eq!(action(HttpMethod::Get, "/api/x"), ("other".to_string(), "/api/x".to_string()));
    assert_eq!(classify_module("/api/x"), "其他操作");
}

#[test]
fn module_order_prefers_specific_admin_paths() {
    assert_eq!(classify_module("/api/admin/plan"), "套餐配置");
    assert_eq!(classify_module("/api/admin/op-logs"), "操作日志");
    assert_eq!(classify_module("/api/admin/other"), "管理员操作");
    assert_eq!(classify_module("/api/merchant/profile"), "账号设置");
    assert_eq!(classify_module("/api/merchant/x"), "商户操作");
}

#[test]
fn user_types() {
    assert_eq!(classify_user(Some("admin")), "admin");
    assert_eq!(classify_user(Some("merchant")), "merchant");
    assert_eq!(classify_user(Some("anything")), "merchant");
    assert_eq!(classify_user(None), "visitor");
}

#[test]
fn only_successful_requests_are_logged() {
    assert!(op_log_entry(HttpMethod::Post, "/api/apps", false, Some("admin")).is_none());
    let e = op_log_entry(HttpMethod::Post, "/api/apps", true, None).unwrap();
    assert_eq!(e.user_type, "visitor");
    assert_eq!(e.action, "create");
    assert_eq!(e.module, "应用管理");
    assert_eq!(e.detail, "新建应用");
}

#[test]
fn quiet_paths_are_not_logged() {
    assert!(op_log_entry(HttpMethod::Get, "/health", true, None).is_none());
    assert!(op_log_entry(HttpMethod::Post, "/api/ts/sign", true, Some("admin")).is_none());
    assert!(op_log_entry(HttpMethod::Post, "/api/frontend-log", true, None).is_none());
    assert!(op_log_entry(HttpMethod::Get, "/api/tsx", true, None).is_some());
    assert!(op_log_entry(HttpMethod::Get, "/api/apps/health", true, None).is_some());
}
