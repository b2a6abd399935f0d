use componentize_js::error::ProtocolError;
use componentize_js::shim::{dec_u32, init_script, sanitize_name, shim_source};
use componentize_js::table::{DispatchTable, FuncDesc};

fn text(v: Vec<char>) -> String {
    v.into_iter().collect()
}

fn desc(
    interface: Option<&str>,
    name: &str,
    param_count: u32,
    is_async: bool,
    has_result: bool,
) -> FuncDesc {
    FuncDesc {
        interface: interface.map(String::from),
        name: String::from(name),
        param_count,
        is_async,
        has_result,
    }
}

#[test]
fn sanitize_rewrites_separators() {
    assert_eq!(
        text(sanitize_name("componentize-js:tests/simple-export")),
        "componentize_js_tests_simple_export"
    );
    assert_eq!(text(sanitize_name("plain")), "plain");
    assert_eq!(text(sanitize_name("")), "");
}

#[test]
fn decimal_rendering() {
    assert_eq!(text(dec_u32(0)), "0");
    assert_eq!(text(dec_u32(9)), "9");
    assert_eq!(text(dec_u32(10)), "10");
    assert_eq!(text(dec_u32(4_294_967_295)), "4294967295");
}

#[test]
fn empty_world_generates_empty_objects() {
    let table = DispatchTable::new(vec![], vec![]);
    let tail = text(shim_source(&table).unwrap());
    assert_eq!(
        tail,
        "\nvar imports = {}\nvar componentize_js_async_exports = {}"
    );
}

#[test]
fn import_object_groups_by_interface() {
    let table = DispatchTable::new(
        vec![
            desc(None, "log", 2, false, false),
            desc(Some("a:b/c"), "fetch-data", 1, true, true),
        ],
        vec![],
    );
    let tail = text(shim_source(&table).unwrap());
    assert_eq!(
        tail,
        "\nvar imports = {log:function(p0,p1){return componentize_js_call_import(0,[p0,p1])},a_b_c:{fetch_data:function(p0){return new Promise(function(a,b){componentize_js_call_import(1,[p0],a,b)})}}}\nvar componentize_js_async_exports = {}"
    );
}

#[test]
fn interface_members_share_one_namespace() {
    let table = DispatchTable::new(
        vec![
            desc(Some("x:y"), "first", 0, false, true),
            desc(None, "solo", 1, false, false),
            desc(Some("x:y"), "second", 1, false, true),
        ],
        vec![],
    );
    let tail = text(shim_source(&table).unwrap());
    assert_eq!(
        tail,
        "\nvar imports = {x_y:{first:function(){return componentize_js_call_import(0,[])},second:function(p0){return componentize_js_call_import(2,[p0])}},solo:function(p0){return componentize_js_call_import(1,[p0])}}\nvar componentize_js_async_exports = {}"
    );
}

#[test]
fn export_wrappers_notify_the_scheduler() {
    let table = DispatchTable::new(
        vec![],
        vec![desc(Some("t:w/i"), "run-it", 1, true, true)],
    );
    let tail = text(shim_source(&table).unwrap());
    assert_eq!(
        tail,
        "\nvar imports = {}\nvar componentize_js_async_exports = {t_w_i:{run_it:function(p0){return Promise.resolve(exports.t_w_i.run_it(p0)).then(function(a){componentize_js_resolve(0,a)},function(b){componentize_js_reject(0,b)})}}}"
    );
}

#[test]
fn init_script_appends_the_shim() {
    let table = DispatchTable::new(vec![], vec![]);
    let script = "var exports = {}";
    let full = text(init_script(script, &table).unwrap());
    assert_eq!(
        full,
        "var exports = {}\nvar imports = {}\nvar componentize_js_async_exports = {}"
    );
}

#[test]
fn name_collisions_are_a_generation_time_error() {
    let table = DispatchTable::new(
        vec![
            desc(None, "a-b", 0, false, false),
            desc(None, "a_b", 0, false, false),
        ],
        vec![],
    );
    assert_eq!(shim_source(&table).unwrap_err(), ProtocolError::NameCollision);
}

#[test]
fn interface_collisions_are_a_generation_time_error() {
    let table = DispatchTable::new(
        vec![
            desc(Some("a:b"), "f", 0, false, false),
            desc(Some("a/b"), "g", 0, false, false),
        ],
        vec![],
    );
    assert_eq!(shim_source(&table).unwrap_err(), ProtocolError::NameCollision);
}

#[test]
fn toplevel_name_colliding_with_namespace_is_an_error() {
    let table = DispatchTable::new(
        vec![
            desc(None, "a-b", 0, false, false),
            desc(Some("a:b"), "f", 0, false, false),
        ],
        vec![],
    );
    assert_eq!(shim_source(&table).unwrap_err(), ProtocolError::NameCollision);
}

#[test]
fn export_collisions_are_checked_too() {
    let table = DispatchTable::new(
        vec![],
        vec![
            desc(Some("i"), "x-y", 0, false, true),
            desc(Some("i"), "x_y", 0, false, true),
        ],
    );
    assert_eq!(shim_source(&table).unwrap_err(), ProtocolError::NameCollision);
}
