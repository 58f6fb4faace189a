use kwasm::console::{log, log_error, log_js_string, ConsoleAction, ConsoleInner, ConsoleStream};
use kwasm::eval::eval;
use kwasm::host::{check_host_result, KWasmLibrary, BOOTSTRAP_LIBRARY_ID, NO_RESULT};
use kwasm::js_object::{JSObject, JSString, ProxyCall, JS_SELF_INDEX};
use kwasm::JSFunction;

#[test]
fn log_messages_carry_stream_and_text() {
    let message = log("hello");
    assert!(matches!(message.stream, ConsoleStream::Log));
    assert_eq!(message.text, "hello");

    let message = log_error("boom");
    assert!(matches!(message.stream, ConsoleStream::Error));
    assert_eq!(message.text, "boom");
}

#[test]
fn console_initializes_lazily() {
    let mut console = ConsoleInner::new();
    let mut text = JSString::new("printed");
    text.install_handle(JSObject::new_raw(12));

    // Before the handles are resolved, printing asks for initialization.
    assert!(matches!(
        console.log_js_string(&text),
        ConsoleAction::NeedsInitialization
    ));

    console.initialize(JSObject::new_raw(10), JSObject::new_raw(11), JSObject::new_raw(13));
    match log_js_string(&console, &text) {
        ConsoleAction::Call(ProxyCall::CallWithArgs { function, this, args }) => {
            assert_eq!(function, 11);
            assert_eq!(this, 10);
            assert_eq!(args, vec![12]);
        }
        _ => panic!("an initialized console prints with one call"),
    }
    match console.error_js_string(&text) {
        ConsoleAction::Call(ProxyCall::CallWithArgs { function, this, args }) => {
            assert_eq!(function, 13);
            assert_eq!(this, 10);
            assert_eq!(args, vec![12]);
        }
        _ => panic!("an initialized console prints with one call"),
    }
    let message = console.log("by method");
    assert!(matches!(message.stream, ConsoleStream::Log));
    assert_eq!(message.text, "by method");
    let message = console.log_error("by method too");
    assert!(matches!(message.stream, ConsoleStream::Error));
}

#[test]
fn library_registration_round_trip() {
    assert_eq!(BOOTSTRAP_LIBRARY_ID, 0);
    let mut library = KWasmLibrary::null();
    assert_eq!(library.id(), 0);

    let registration = KWasmLibrary::registration_request("host library source");
    assert_eq!(registration.source, "host library source");

    library.complete_registration(7);
    assert_eq!(library.id(), 7);

    let call = library.message(2);
    assert_eq!((call.library_id, call.command), (7, 2));
    assert!(call.words.is_empty());

    let call = library.message_with_slice(4, &vec![1, 2, 3]);
    assert_eq!((call.library_id, call.command), (7, 4));
    assert_eq!(call.words, vec![1, 2, 3]);
}

#[test]
fn no_result_sentinel_is_absent_not_an_error() {
    assert_eq!(check_host_result(NO_RESULT), None);
    assert_eq!(check_host_result(7), Some(7));
}

#[test]
fn object_handles_swap_and_null_check() {
    let mut a = JSObject::new_raw(4);
    let mut b = JSObject::null();
    assert!(!a.is_null());
    assert!(b.is_null());
    a.swap(&mut b);
    assert_eq!(a.index(), 0);
    assert_eq!(b.index(), 4);
    assert_eq!(JSObject::js_self().index(), JS_SELF_INDEX);
}

#[test]
fn check_result_maps_zero_to_none() {
    assert!(JSObject::check_result(0).is_none());
    let object = JSObject::check_result(9).unwrap();
    assert_eq!(object.index(), 9);
}

#[test]
fn proxy_call_builders_capture_arguments() {
    let function = JSObject::new_raw(2);
    let this = JSObject::new_raw(3);
    let x = JSObject::new_raw(4);
    let y = JSObject::new_raw(5);

    match function.get_property(&x) {
        ProxyCall::GetProperty { object, property } => {
            assert_eq!((object, property), (2, 4));
        }
        _ => panic!("get_property builds a property lookup"),
    }
    match function.call(&this) {
        ProxyCall::CallWithArgs { function, this, args } => {
            assert_eq!((function, this), (2, 3));
            assert!(args.is_empty());
        }
        _ => panic!("call builds a no-argument call"),
    }
    match function.call_1_arg(&this, &x) {
        ProxyCall::CallWithArgs { args, .. } => assert_eq!(args, vec![4]),
        _ => panic!("call_1_arg builds a one-argument call"),
    }
    match function.call_2_arg(&this, &x, &y) {
        ProxyCall::CallWithArgs { args, .. } => assert_eq!(args, vec![4, 5]),
        _ => panic!("call_2_arg builds a two-argument call"),
    }
    match function.call_raw(&this, &vec![8, 9]) {
        ProxyCall::CallWithArgsRaw { function, this, args } => {
            assert_eq!((function, this), (2, 3));
            assert_eq!(args, vec![8, 9]);
        }
        _ => panic!("call_raw builds a raw call"),
    }
    match function.get_value_u32() {
        ProxyCall::GetValueU32 { object } => assert_eq!(object, 2),
        _ => panic!("get_value_u32 builds a value read"),
    }
    match function.free_request() {
        ProxyCall::FreeObject { object } => assert_eq!(object, 2),
        _ => panic!("free_request builds a release"),
    }
}

#[test]
fn strings_intern_lazily() {
    let mut text = JSString::new("console");
    assert!(text.needs_handle());
    match text.creation_request() {
        ProxyCall::NewString { text: t } => assert_eq!(t, "console"),
        _ => panic!("an uninterned string asks to be interned"),
    }
    text.install_handle(JSObject::new_raw(21));
    assert!(!text.needs_handle());
    assert_eq!(text.get_js_object().index(), 21);

    let owned = JSString::new_from_string(String::from("owned"));
    assert!(owned.needs_handle());
}

#[test]
fn js_function_initializes_from_source_then_calls() {
    let mut function = JSFunction::new(String::from("self.eval"));
    assert!(function.check_initialized());
    assert_eq!(function.initialization_source().as_str(), "self.eval");
    function.install(JSObject::new_raw(6));
    assert!(!function.check_initialized());

    match function.call_raw(&JSObject::null(), &vec![1, 2]) {
        ProxyCall::CallWithArgsRaw { function, this, args } => {
            assert_eq!((function, this), (6, 0));
            assert_eq!(args, vec![1, 2]);
        }
        _ => panic!("call_raw goes through the cached handle"),
    }
}

#[test]
fn eval_calls_through_the_cached_function() {
    let mut function = JSFunction::new(String::from("self.eval"));
    function.install(JSObject::new_raw(6));
    let mut source = JSString::new("1 + 1");
    source.install_handle(JSObject::new_raw(30));

    match eval(&function, &source) {
        ProxyCall::CallWithArgs { function, this, args } => {
            assert_eq!((function, this), (6, 0));
            assert_eq!(args, vec![30]);
        }
        _ => panic!("eval is one call on the evaluation function"),
    }
}
