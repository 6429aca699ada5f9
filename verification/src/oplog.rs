use vstd::prelude::*;
use crate::text::{has_sub, str_contains, str_eq, str_starts_with, concat};

verus! {

/// The request methods that the operation log tells apart.
#[derive(Clone, Copy, Debug, PartialEq, Eq)]
pub enum HttpMethod {
    Get,
    Post,
    Put,
    Patch,
    Delete,
    Other,
}

/// What the operation log records of one successful request.
pub struct OpLogEntry {
    pub user_type: String,
    pub action: String,
    pub module: String,
    pub detail: String,
}

/// The action name and the description that a request is logged under.
pub open spec fn action_of(m: HttpMethod, p: Seq<char>) -> (Seq<char>, Seq<char>) {
    if has_sub(p, "/auth/login"@) { ("login"@, "登录系统"@) }
    else if has_sub(p, "/auth/register"@) { ("register"@, "注册新账号"@) }
    else if has_sub(p, "/auth/logout"@) { ("logout"@, "退出登录"@) }
    else if has_sub(p, "/auth/reset-password"@) { ("reset_password"@, "重置密码"@) }
    else if has_sub(p, "/admin/merchants"@) && has_sub(p, "/plan"@) { ("update_plan"@, "修改商户套餐"@) }
    else if has_sub(p, "/admin/merchants"@) && has_sub(p, "/status"@) { ("update_status"@, "修改商户状态"@) }
    else if has_sub(p, "/admin/merchants"@) && m == HttpMethod::Post { ("create"@, "新建商户"@) }
    else if has_sub(p, "/admin/merchants"@) && m == HttpMethod::Put { ("update"@, "修改商户信息"@) }
    else if has_sub(p, "/apps"@) && m == HttpMethod::Post { ("create"@, "新建应用"@) }
    else if has_sub(p, "/apps"@) && m == HttpMethod::Put { ("update"@, "修改应用信息"@) }
    else if has_sub(p, "/apps"@) && m == HttpMethod::Delete { ("delete"@, "删除应用"@) }
    else if has_sub(p, "/cards/batch"@) && m == HttpMethod::Post { ("create"@, "批量创建卡密"@) }
    else if has_sub(p, "/cards/batch"@) && m == HttpMethod::Delete { ("delete"@, "批量删除卡密"@) }
    else if has_sub(p, "/cards"@) && m == HttpMethod::Post { ("create"@, "创建卡密"@) }
    else if has_sub(p, "/cards"@) && m == HttpMethod::Put { ("update"@, "修改卡密"@) }
    else if has_sub(p, "/cards"@) && m == HttpMethod::Delete { ("delete"@, "删除卡密"@) }
    else if has_sub(p, "/keys"@) && m == HttpMethod::Post { ("create"@, "新建API密钥"@) }
    else if has_sub(p, "/keys"@) && m == HttpMethod::Put { ("update"@, "修改API密钥"@) }
    else if has_sub(p, "/keys"@) && m == HttpMethod::Delete { ("delete"@, "删除API密钥"@) }
    else if has_sub(p, "/merchant/regenerate"@) { ("regenerate"@, "重新生成API Key"@) }
    else if blacklist_only(p) && m == HttpMethod::Post { ("add"@, "添加黑名单"@) }
    else if blacklist_only(p) && m == HttpMethod::Delete { ("remove"@, "移除黑名单"@) }
    else if has_sub(p, "/whitelist"@) && m == HttpMethod::Post { ("add"@, "添加白名单"@) }
    else if has_sub(p, "/whitelist"@) && m == HttpMethod::Delete { ("remove"@, "移除白名单"@) }
    else if has_sub(p, "/merchant/change-password"@) { ("change_password"@, "修改密码"@) }
    else if has_sub(p, "/merchant/profile"@) { ("update_profile"@, "修改账号信息"@) }
    else if has_sub(p, "/messages"@) && m == HttpMethod::Post { ("send"@, "发送消息"@) }
    else if has_sub(p, "/messages"@) && m == HttpMethod::Put { ("update"@, "修改消息"@) }
    else if has_sub(p, "/messages"@) && m == HttpMethod::Delete { ("delete"@, "删除消息"@) }
    else if has_sub(p, "/alerts"@) && m == HttpMethod::Put { ("update"@, "修改告警状态"@) }
    else if has_sub(p, "/alerts"@) && m == HttpMethod::Delete { ("delete"@, "删除告警"@) }
    else if has_sub(p, "/v1/activate"@) { ("activate"@, "接口激活"@) }
    else if has_sub(p, "/v1/verify"@) { ("verify"@, "接口验证"@) }
    else if has_sub(p, "/v1/unbind"@) { ("unbind"@, "接口解绑"@) }
    else if has_sub(p, "/v1/heartbeat"@) { ("heartbeat"@, "接口心跳"@) }
    else if has_sub(p, "/ts/sign"@) { ("sign"@, "接口签名"@) }
    else if has_sub(p, "/ts/encrypt"@) { ("encrypt"@, "接口加密"@) }
    else if has_sub(p, "/ts/decrypt"@) { ("decrypt"@, "接口解密"@) }
    else if m == HttpMethod::Post { ("create"@, "新建数据: "@ + p) }
    else if m == HttpMethod::Put || m == HttpMethod::Patch { ("update"@, "修改数据: "@ + p) }
    else if m == HttpMethod::Delete { ("delete"@, "删除数据: "@ + p) }
    else { ("other"@, p) }
}

/// A path of the black list itself, not of its IPs, devices or alerts.
pub open spec fn blacklist_only(p: Seq<char>) -> bool {
    has_sub(p, "/blacklist"@) && !has_sub(p, "/ips"@) && !has_sub(p, "/devices"@) && !has_sub(
        p,
        "/alerts"@,
    )
}

/// The module that a request path is logged under.
pub open spec fn module_of(p: Seq<char>) -> Seq<char> {
    if has_sub(p, "/auth"@) { "认证"@ }
    else if has_sub(p, "/admin/merchants"@) { "商户管理"@ }
    else if has_sub(p, "/admin/blacklist"@) { "管理员黑名单"@ }
    else if has_sub(p, "/admin/whitelist"@) { "管理员白名单"@ }
    else if has_sub(p, "/admin/messages"@) { "消息管理"@ }
    else if has_sub(p, "/admin/plan"@) { "套餐配置"@ }
    else if has_sub(p, "/admin/alerts"@) { "异常告警"@ }
    else if has_sub(p, "/admin/risk"@) { "风控设置"@ }
    else if has_sub(p, "/admin/op-logs"@) { "操作日志"@ }
    else if has_sub(p, "/admin"@) { "管理员操作"@ }
    else if has_sub(p, "/merchant/change-password"@) { "修改密码"@ }
    else if has_sub(p, "/merchant/regenerate"@) { "API管理"@ }
    else if has_sub(p, "/merchant/profile"@) { "账号设置"@ }
    else if has_sub(p, "/merchant/op-logs"@) { "操作日志"@ }
    else if has_sub(p, "/merchant"@) { "商户操作"@ }
    else if has_sub(p, "/apps"@) { "应用管理"@ }
    else if has_sub(p, "/cards"@) { "卡密管理"@ }
    else if has_sub(p, "/keys"@) { "API管理"@ }
    else if has_sub(p, "/blacklist"@) { "风控管理"@ }
    else if has_sub(p, "/whitelist"@) { "风控管理"@ }
    else if has_sub(p, "/messages"@) { "消息中心"@ }
    else if has_sub(p, "/activations"@) { "激活记录"@ }
    else if has_sub(p, "/v1/activate"@) { "接口调用-激活"@ }
    else if has_sub(p, "/v1/verify"@) { "接口调用-验证"@ }
    else if has_sub(p, "/v1/unbind"@) { "接口调用-解绑"@ }
    else if has_sub(p, "/v1/heartbeat"@) { "接口调用-心跳"@ }
    else if has_sub(p, "/ts/sign"@) { "接口调用-签名"@ }
    else if has_sub(p, "/ts/encrypt"@) { "接口调用-加密"@ }
    else if has_sub(p, "/ts/decrypt"@) { "接口调用-解密"@ }
    else { "其他操作"@ }
}

/// Who made a request, by the role in its verified token, if any.
pub open spec fn user_type_of(role: Option<Seq<char>>) -> Seq<char> {
    match role {
        Some(r) => if r == "admin"@ { "admin"@ } else { "merchant"@ },
        None => "visitor"@,
    }
}

fn pair(a: &str, b: &str) -> (r: (String, String))
    ensures
        r.0@ == a@,
        r.1@ == b@,
{
    (a.to_owned(), b.to_owned())
}

/// The action and description of a request, by its method and path.
pub fn classify_action(method: HttpMethod, path: &str) -> (r: (String, String))
    ensures
        (r.0@, r.1@) == action_of(method, path@),
{
    let m = method;
    if str_contains(path, "/auth/login") { return pair("login", "登录系统"); }
    if str_contains(path, "/auth/register") { return pair("register", "注册新账号"); }
    if str_contains(path, "/auth/logout") { return pair("logout", "退出登录"); }
    if str_contains(path, "/auth/reset-password") { return pair("reset_password", "重置密码"); }
    let merchants = str_contains(path, "/admin/merchants");
    if merchants && str_contains(path, "/plan") { return pair("update_plan", "修改商户套餐"); }
    if merchants && str_contains(path, "/status") { return pair("update_status", "修改商户状态"); }
    if merchants {
        match m {
            HttpMethod::Post => { return pair("create", "新建商户"); },
            HttpMethod::Put => { return pair("update", "修改商户信息"); },
            _ => {},
        }
    }
    if str_contains(path, "/apps") {
        match m {
            HttpMethod::Post => { return pair("create", "新建应用"); },
            HttpMethod::Put => { return pair("update", "修改应用信息"); },
            HttpMethod::Delete => { return pair("delete", "删除应用"); },
            _ => {},
        }
    }
    if str_contains(path, "/cards/batch") {
        match m {
            HttpMethod::Post => { return pair("create", "批量创建卡密"); },
            HttpMethod::Delete => { return pair("delete", "批量删除卡密"); },
            _ => {},
        }
    }
    if str_contains(path, "/cards") {
        match m {
            HttpMethod::Post => { return pair("create", "创建卡密"); },
            HttpMethod::Put => { return pair("update", "修改卡密"); },
            HttpMethod::Delete => { return pair("delete", "删除卡密"); },
            _ => {},
        }
    }
    if str_contains(path, "/keys") {
        match m {
            HttpMethod::Post => { return pair("create", "新建API密钥"); },
            HttpMethod::Put => { return pair("update", "修改API密钥"); },
            HttpMethod::Delete => { return pair("delete", "删除API密钥"); },
            _ => {},
        }
    }
    if str_contains(path, "/merchant/regenerate") { return pair("regenerate", "重新生成API Key"); }
    if str_contains(path, "/blacklist") && !str_contains(path, "/ips") && !str_contains(path, "/devices")
        && !str_contains(path, "/alerts") {
        match m {
            HttpMethod::Post => { return pair("add", "添加黑名单"); },
            HttpMethod::Delete => { return pair("remove", "移除黑名单"); },
            _ => {},
        }
    }
    if str_contains(path, "/whitelist") {
        match m {
            HttpMethod::Post => { return pair("add", "添加白名单"); },
            HttpMethod::Delete => { return pair("remove", "移除白名单"); },
            _ => {},
        }
    }
    if str_contains(path, "/merchant/change-password") { return pair("change_password", "修改密码"); }
    if str_contains(path, "/merchant/profile") { return pair("update_profile", "修改账号信息"); }
    if str_contains(path, "/messages") {
        match m {
            HttpMethod::Post => { return pair("send", "发送消息"); },
            HttpMethod::Put => { return pair("update", "修改消息"); },
            HttpMethod::Delete => { return pair("delete", "删除消息"); },
            _ => {},
        }
    }
    if str_contains(path, "/alerts") {
        match m {
            HttpMethod::Put => { return pair("update", "修改告警状态"); },
            HttpMethod::Delete => { return pair("delete", "删除告警"); },
            _ => {},
        }
    }
    if str_contains(path, "/v1/activate") { return pair("activate", "接口激活"); }
    if str_contains(path, "/v1/verify") { return pair("verify", "接口验证"); }
    if str_contains(path, "/v1/unbind") { return pair("unbind", "接口解绑"); }
    if str_contains(path, "/v1/heartbeat") { return pair("heartbeat", "接口心跳"); }
    if str_contains(path, "/ts/sign") { return pair("sign", "接口签名"); }
    if str_contains(path, "/ts/encrypt") { return pair("encrypt", "接口加密"); }
    if str_contains(path, "/ts/decrypt") { return pair("decrypt", "接口解密"); }
    match m {
        HttpMethod::Post => ("create".to_owned(), concat("新建数据: ", path)),
        HttpMethod::Put | HttpMethod::Patch => ("update".to_owned(), concat("修改数据: ", path)),
        HttpMethod::Delete => ("delete".to_owned(), concat("删除数据: ", path)),
        _ => ("other".to_owned(), path.to_owned()),
    }
}

fn text(a: &str) -> (r: String)
    ensures
        r@ == a@,
{
    a.to_owned()
}

/// The module of a request, by its path.
pub fn classify_module(path: &str) -> (r: String)
    ensures
        r@ == module_of(path@),
{
    if str_contains(path, "/auth") { text("认证") }
    else if str_contains(path, "/admin/merchants") { text("商户管理") }
    else if str_contains(path, "/admin/blacklist") { text("管理员黑名单") }
    else if str_contains(path, "/admin/whitelist") { text("管理员白名单") }
    else if str_contains(path, "/admin/messages") { text("消息管理") }
    else if str_contains(path, "/admin/plan") { text("套餐配置") }
    else if str_contains(path, "/admin/alerts") { text("异常告警") }
    else if str_contains(path, "/admin/risk") { text("风控设置") }
    else if str_contains(path, "/admin/op-logs") { text("操作日志") }
    else if str_contains(path, "/admin") { text("管理员操作") }
    else if str_contains(path, "/merchant/change-password") { text("修改密码") }
    else if str_contains(path, "/merchant/regenerate") { text("API管理") }
    else if str_contains(path, "/merchant/profile") { text("账号设置") }
    else if str_contains(path, "/merchant/op-logs") { text("操作日志") }
    else if str_contains(path, "/merchant") { text("商户操作") }
    else if str_contains(path, "/apps") { text("应用管理") }
    else if str_contains(path, "/cards") { text("卡密管理") }
    else if str_contains(path, "/keys") { text("API管理") }
    else if str_contains(path, "/blacklist") { text("风控管理") }
    else if str_contains(path, "/whitelist") { text("风控管理") }
    else if str_contains(path, "/messages") { text("消息中心") }
    else if str_contains(path, "/activations") { text("激活记录") }
    else if str_contains(path, "/v1/activate") { text("接口调用-激活") }
    else if str_contains(path, "/v1/verify") { text("接口调用-验证") }
    else if str_contains(path, "/v1/unbind") { text("接口调用-解绑") }
    else if str_contains(path, "/v1/heartbeat") { text("接口调用-心跳") }
    else if str_contains(path, "/ts/sign") { text("接口调用-签名") }
    else if str_contains(path, "/ts/encrypt") { text("接口调用-加密") }
    else if str_contains(path, "/ts/decrypt") { text("接口调用-解密") }
    else { text("其他操作") }
}

/// The user type logged for a request, by the role in its verified token.
pub fn classify_user(role: Option<&str>) -> (r: String)
    ensures
        r@ == user_type_of(match role { Some(x) => Some(x@), None => None }),
{
    match role {
        Some(x) => {
            if str_eq(x, "admin") {
                text("admin")
            } else {
                text("merchant")
            }
        },
        None => text("visitor"),
    }
}

/// The paths the operation log never records: the health check, the signing
/// service (`/api/ts/...`) and the front end's own log.
pub open spec fn unlogged_path(path: Seq<char>) -> bool {
    "/health"@.is_prefix_of(path) || "/api/ts/"@.is_prefix_of(path) || "/api/frontend-log"@.is_prefix_of(path)
}

/// Whether the operation log skips `path` (see `unlogged_path`).
pub fn is_unlogged_path(path: &str) -> (b: bool)
    ensures
        b == unlogged_path(path@),
{
    str_starts_with(path, "/health") || str_starts_with(path, "/api/ts/") || str_starts_with(path, "/api/frontend-log")
}

/// What the operation log writes for a request: nothing unless it succeeded and its
/// path is not one the log skips, else its user type, action, module and description.
pub fn op_log_entry(method: HttpMethod, path: &str, succeeded: bool, role: Option<&str>) -> (r:
    Option<OpLogEntry>)
    ensures
        r is Some <==> (succeeded && !unlogged_path(path@)),
        r matches Some(e) ==> {
            &&& e.user_type@ == user_type_of(match role { Some(x) => Some(x@), None => None })
            &&& e.action@ == action_of(method, path@).0
            &&& e.detail@ == action_of(method, path@).1
            &&& e.module@ == module_of(path@)
        },
{
    if !succeeded || is_unlogged_path(path) {
        return None;
    }
    let (action, detail) = classify_action(method, path);
    let module = classify_module(path);
    let user_type = classify_user(role);
    Some(OpLogEntry { user_type, action, module, detail })
}

/// The action logged agrees with the request's method: a deletion is never logged
/// as a creation, an update, an addition or a message sent; a creation (POST) never
/// as an update, a deletion or a removal; an update (PUT or PATCH) never as a
/// creation, a deletion, an addition, a removal or a message sent; and a read (GET)
/// never as any of these.
/// The actions whose name does not depend on the request's method: those of fixed
/// routes (signing in, the public API, the signing service and the like).
pub open spec fn route_actions() -> Seq<Seq<char>> {
    seq!["login"@, "register"@, "logout"@, "reset_password"@, "update_plan"@, "update_status"@, "regenerate"@, "change_password"@, "update_profile"@, "activate"@, "verify"@, "unbind"@, "heartbeat"@, "sign"@, "encrypt"@, "decrypt"@]
}

proof fn lemma_action_names()
    ensures
        forall|i: int| 0 <= i < route_actions().len() ==> {
            let w = #[trigger] route_actions()[i];
            w != "create"@ && w != "update"@ && w != "delete"@ && w != "remove"@ && w != "add"@ && w != "send"@
        },
{
    reveal_strlit("create");
    reveal_strlit("update");
    reveal_strlit("delete");
    reveal_strlit("remove");
    reveal_strlit("add");
    reveal_strlit("send");
    reveal_strlit("login");
    reveal_strlit("register");
    reveal_strlit("logout");
    reveal_strlit("reset_password");
    reveal_strlit("update_plan");
    reveal_strlit("update_status");
    reveal_strlit("regenerate");
    reveal_strlit("change_password");
    reveal_strlit("update_profile");
    reveal_strlit("activate");
    reveal_strlit("verify");
    reveal_strlit("unbind");
    reveal_strlit("heartbeat");
    reveal_strlit("sign");
    reveal_strlit("encrypt");
    reveal_strlit("decrypt");
    reveal_strlit("other");
    assert("create"@.len() == 6 && "create"@[0] == 'c');
    assert("update"@.len() == 6 && "update"@[0] == 'u');
    assert("delete"@.len() == 6 && "delete"@[0] == 'd');
    assert("remove"@.len() == 6 && "remove"@[0] == 'r');
    assert("add"@.len() == 3 && "add"@[0] == 'a');
    assert("send"@.len() == 4 && "send"@[0] == 's');
    assert("login"@.len() == 5 && "login"@[0] == 'l');
    assert("register"@.len() == 8 && "register"@[0] == 'r');
    assert("logout"@.len() == 6 && "logout"@[0] == 'l');
    assert("reset_password"@.len() == 14 && "reset_password"@[0] == 'r');
    assert("update_plan"@.len() == 11 && "update_plan"@[0] == 'u');
    assert("update_status"@.len() == 13 && "update_status"@[0] == 'u');
    assert("regenerate"@.len() == 10 && "regenerate"@[0] == 'r');
    assert("change_password"@.len() == 15 && "change_password"@[0] == 'c');
    assert("update_profile"@.len() == 14 && "update_profile"@[0] == 'u');
    assert("activate"@.len() == 8 && "activate"@[0] == 'a');
    assert("verify"@.len() == 6 && "verify"@[0] == 'v');
    assert("unbind"@.len() == 6 && "unbind"@[0] == 'u');
    assert("heartbeat"@.len() == 9 && "heartbeat"@[0] == 'h');
    assert("sign"@.len() == 4 && "sign"@[0] == 's');
    assert("encrypt"@.len() == 7 && "encrypt"@[0] == 'e');
    assert("decrypt"@.len() == 7 && "decrypt"@[0] == 'd');
    assert("other"@.len() == 5 && "other"@[0] == 'o');
    assert("sign"@[1] == 'i' && "send"@[1] == 'e');
    assert(route_actions().len() == 16);
    assert forall|i: int| 0 <= i < route_actions().len() implies {
        let w = #[trigger] route_actions()[i];
        w != "create"@ && w != "update"@ && w != "delete"@ && w != "remove"@ && w != "add"@ && w != "send"@
    } by {
        assert("unbind"@[1] == 'n' && "update"@[1] == 'p');
        let w = route_actions()[i];
        if i == 0 { assert(w == "login"@); }
        else if i == 1 { assert(w == "register"@); }
        else if i == 2 { assert(w == "logout"@); }
        else if i == 3 { assert(w == "reset_password"@); }
        else if i == 4 { assert(w == "update_plan"@); }
        else if i == 5 { assert(w == "update_status"@); }
        else if i == 6 { assert(w == "regenerate"@); }
        else if i == 7 { assert(w == "change_password"@); }
        else if i == 8 { assert(w == "update_profile"@); }
        else if i == 9 { assert(w == "activate"@); }
        else if i == 10 { assert(w == "verify"@); }
        else if i == 11 { assert(w == "unbind"@); }
        else if i == 12 { assert(w == "heartbeat"@); }
        else if i == 13 { assert(w == "sign"@); }
        else if i == 14 { assert(w == "encrypt"@); }
        else { assert(w == "decrypt"@); }
    }
}

/// The action logged agrees with the request's method: a deletion is never logged
/// as a creation, an update, an addition or a message sent; a creation (POST) never
/// as an update, a deletion or a removal; an update (PUT or PATCH) never as a
/// creation, a deletion, an addition, a removal or a message sent; and a read (GET)
/// never as any of these.
pub proof fn law_action_agrees_with_method(m: HttpMethod, p: Seq<char>)
    ensures
        m == HttpMethod::Delete ==> ({
            let a = action_of(m, p).0;
            a != "create"@ && a != "update"@ && a != "add"@ && a != "send"@
        }),
        m == HttpMethod::Post ==> ({
            let a = action_of(m, p).0;
            a != "update"@ && a != "delete"@ && a != "remove"@
        }),
        (m == HttpMethod::Put || m == HttpMethod::Patch) ==> ({
            let a = action_of(m, p).0;
            a != "create"@ && a != "delete"@ && a != "remove"@ && a != "add"@ && a != "send"@
        }),
        m == HttpMethod::Get ==> ({
            let a = action_of(m, p).0;
            a != "create"@ && a != "update"@ && a != "delete"@ && a != "remove"@ && a != "add"@ && a != "send"@
        }),
{
    lemma_action_names();
    reveal_strlit("create");
    reveal_strlit("update");
    reveal_strlit("delete");
    reveal_strlit("remove");
    reveal_strlit("add");
    reveal_strlit("send");
    reveal_strlit("other");
    assert("other"@[0] == 'o' && "create"@[0] == 'c' && "update"@[0] == 'u' && "delete"@[0] == 'd' && "remove"@[0] == 'r' && "add"@.len() == 3 && "send"@.len() == 4 && "other"@.len() == 5);
    let a = action_of(m, p).0;
    let fixed = route_actions().contains(a);
    if m == HttpMethod::Delete {
        assert(fixed || a == "delete"@ || a == "remove"@);
    } else if m == HttpMethod::Post {
        assert(fixed || a == "create"@ || a == "add"@ || a == "send"@);
    } else if m == HttpMethod::Put || m == HttpMethod::Patch {
        assert(fixed || a == "update"@);
    } else if m == HttpMethod::Get {
        assert(fixed || a == "other"@);
    }
}

/// Deleting a card (a card path that is not a batch path, an authentication route,
/// a merchant-administration path or an app path) is logged as the deletion of a
/// card.
pub proof fn law_card_deletion_logged(p: Seq<char>)
    requires
        has_sub(p, "/cards"@),
        !has_sub(p, "/cards/batch"@),
        !has_sub(p, "/auth/login"@),
        !has_sub(p, "/auth/register"@),
        !has_sub(p, "/auth/logout"@),
        !has_sub(p, "/auth/reset-password"@),
        !has_sub(p, "/admin/merchants"@),
        !has_sub(p, "/apps"@),
    ensures
        action_of(HttpMethod::Delete, p) == ("delete"@, "删除卡密"@),
{
}

/// Every request path that names the login route is logged as a login, whatever
/// its method, in the authentication module.
pub proof fn law_login_logged(m: HttpMethod, p: Seq<char>)
    requires
        has_sub(p, "/auth/login"@),
    ensures
        action_of(m, p) == ("login"@, "登录系统"@),
        module_of(p) == "认证"@,
{
    assert(has_sub(p, "/auth"@)) by {
        let i = choose|i: int| 0 <= i && i + "/auth/login"@.len() <= p.len() && #[trigger] p.subrange(i, i + "/auth/login"@.len()) == "/auth/login"@;
        reveal_strlit("/auth/login");
        reveal_strlit("/auth");
        assert(p.subrange(i, i + 5) =~= "/auth"@) by {
            assert forall|k: int| 0 <= k < 5 implies p.subrange(i, i + 5)[k] == "/auth"@[k] by {
                assert(p.subrange(i, i + "/auth/login"@.len())[k] == "/auth/login"@[k]);
            }
        }
    }
}

} // verus!
