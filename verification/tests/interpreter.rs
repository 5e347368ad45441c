use std::cell::RefCell;
use std::rc::Rc;

use qjs_repl::format::{format_js_value, format_many};
use qjs_repl::shell::{step, Action, Event, Phase};
use qjs_repl::value::DynamicValue;
use rquickjs::{Context, Ctx, Func, Object, Rest, Runtime, Type, Value};

fn lift(v: Value) -> DynamicValue {
    match v.type_of() {
        Type::String => DynamicValue::String(v.as_string().unwrap().to_string().unwrap()),
        Type::Bool => DynamicValue::Boolean(v.as_bool().unwrap()),
        Type::Int => DynamicValue::Integer(v.as_int().unwrap()),
        Type::Float => DynamicValue::Float(v.as_float().unwrap().to_string()),
        Type::Null => DynamicValue::Null,
        Type::Undefined => DynamicValue::Undefined,
        Type::Module => DynamicValue::Module(v.as_module().unwrap().name().unwrap()),
        Type::Array => {
            let array = v.as_array().unwrap();
            DynamicValue::Array(array.iter::<Value>().map(|item| lift(item.unwrap())).collect())
        }
        Type::Object => {
            let object = v.as_object().unwrap();
            let mut entries = Vec::new();
            for key in object.keys::<String>() {
                let key = key.unwrap();
                let value: Value = object.get(&key).unwrap();
                entries.push((key, lift(value)));
            }
            DynamicValue::Object(entries)
        }
        Type::Function => {
            let function = v.as_function().unwrap();
            DynamicValue::Function(function.as_object().get("name").unwrap())
        }
        _ => DynamicValue::Other,
    }
}

fn evaluate(ctx: Ctx, source: &str) -> Event {
    match ctx.eval::<Value, _>(source) {
        Ok(value) => Event::Evaluated(lift(value)),
        Err(err) => Event::EvaluationFailed(err.to_string()),
    }
}

fn printed_for(source: &str) -> String {
    let rt = Runtime::new().unwrap();
    let context = Context::full(&rt).unwrap();
    let event = context.with(|ctx| evaluate(ctx, source));
    match step(Phase::Evaluating, event) {
        Some((Phase::Printing, Action::Print { line })) => line,
        other => panic!("an evaluation must be printed, got {:?}", other),
    }
}

fn logged_by(source: &str) -> Vec<String> {
    let lines: Rc<RefCell<Vec<String>>> = Rc::new(RefCell::new(Vec::new()));
    let sink = lines.clone();
    let rt = Runtime::new().unwrap();
    let context = Context::full(&rt).unwrap();
    context.with(|ctx| {
        let console = Object::new(ctx).unwrap();
        let log = move |args: Rest<Value>| {
            let values: Vec<DynamicValue> = args.0.into_iter().map(lift).collect();
            sink.borrow_mut().push(format_many(&values));
        };
        console.set("log", Func::from(log)).unwrap();
        ctx.globals().set("console", console).unwrap();
        ctx.compile("script.js", source).unwrap();
    });
    let collected = lines.borrow().clone();
    collected
}

#[test]
fn interactive_one_plus_one_prints_two() {
    assert_eq!(printed_for("1+1"), "2");
}

#[test]
fn interactive_throw_prints_an_error_line() {
    let line = printed_for("throw new Error('boom')");
    assert!(line.starts_with("Error: "), "got {:?}", line);
    let line = printed_for("missing_name + 1");
    assert!(line.starts_with("Error: "), "got {:?}", line);
}

#[test]
fn interactive_syntax_error_prints_an_error_line() {
    let line = printed_for("1 +");
    assert!(line.starts_with("Error: "), "got {:?}", line);
}

#[test]
fn interactive_string_result_is_quoted() {
    assert_eq!(printed_for("'x'"), "\"x\"");
    assert_eq!(printed_for("'a' + 'b'"), "\"ab\"");
}

#[test]
fn interactive_scalars_are_printed() {
    assert_eq!(printed_for("true"), "true");
    assert_eq!(printed_for("1 > 2"), "false");
    assert_eq!(printed_for("null"), "null");
    assert_eq!(printed_for("undefined"), "undefined");
    assert_eq!(printed_for("-7"), "-7");
    assert_eq!(printed_for("1.5"), "1.5");
}

#[test]
fn interactive_array_is_printed_in_order() {
    assert_eq!(printed_for("[]"), "[]");
    assert_eq!(printed_for("[1, 'a', true]"), "[1, \"a\", true]");
    assert_eq!(printed_for("[[1, 2], 3]"), "[[1, 2], 3]");
}

#[test]
fn interactive_object_keeps_insertion_order() {
    assert_eq!(printed_for("({x: 1, y: 'a'})"), "{ x: 1, y: \"a\" }");
    assert_eq!(printed_for("({y: 'a', x: 1})"), "{ y: \"a\", x: 1 }");
    assert_eq!(printed_for("var o = {}; o.b = 2; o.a = [o.b]; o"), "{ b: 2, a: [2] }");
    assert_eq!(printed_for("({})"), "{  }");
}

#[test]
fn interactive_function_shows_its_name() {
    assert_eq!(printed_for("(function add(a, b) { return a + b; })"), "function add(...)");
}

#[test]
fn interactive_symbol_is_the_fixed_text() {
    assert_eq!(printed_for("Symbol('s')"), "Other Type");
}

#[test]
fn interpreter_state_outlives_a_line() {
    let rt = Runtime::new().unwrap();
    let context = Context::full(&rt).unwrap();
    let first = context.with(|ctx| evaluate(ctx, "var kept = 20; kept"));
    assert_eq!(first, Event::Evaluated(DynamicValue::Integer(20)));
    let second = context.with(|ctx| evaluate(ctx, "kept + 1"));
    assert_eq!(second, Event::Evaluated(DynamicValue::Integer(21)));
}

#[test]
fn batch_console_log_prints_one_line() {
    assert_eq!(logged_by("console.log(\"x\")"), vec!["\"x\"".to_string()]);
}

#[test]
fn batch_console_log_joins_its_arguments_with_spaces() {
    assert_eq!(logged_by("console.log('hi', 1, true)"), vec!["\"hi\" 1 true".to_string()]);
    assert_eq!(
        logged_by("console.log(1); console.log([1, 2], {k: null})"),
        vec!["1".to_string(), "[1, 2] { k: null }".to_string()]
    );
    assert_eq!(logged_by("console.log()"), vec![String::new()]);
}

#[test]
fn batch_result_is_the_module() {
    let rt = Runtime::new().unwrap();
    let context = Context::full(&rt).unwrap();
    let text = context.with(|ctx| {
        let module = ctx.compile("unit.js", "export const n = 1;").unwrap();
        format_js_value(&lift(module.as_value().clone()))
    });
    assert_eq!(text, "module(unit.js)");
}
