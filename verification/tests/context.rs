use llvm_layer::utils::Handle;
use llvm_layer::Context;

fn handle(addr: usize) -> Handle {
    Handle::new(addr).unwrap()
}

#[test]
fn discarding_context() {
    let (_context, code) = Context::new(handle(0x1000), true);
    assert_eq!(code, 1);
}

#[test]
fn non_discarding_context() {
    let (_context, code) = Context::new(handle(0x1000), false);
    assert_eq!(code, 0);
}

#[test]
fn debug_context() {
    let (context, _) = Context::new(handle(0x1000), false);
    println!("{:?}", context);

    let (context, _) = Context::new(handle(0x2000), true);
    println!("{:?}", context);
}

#[test]
fn discard_names() {
    // The engine stands behind `flag`: it keeps the code it was last given.
    let (context, flag) = Context::new(handle(0x1000), false);
    assert!(!context.will_discard_names(flag));

    let (mut context, mut flag) = Context::new(handle(0x2000), true);
    assert!(context.will_discard_names(flag));

    flag = context.discard_names(false);
    assert!(!context.will_discard_names(flag));

    flag = context.discard_names(true);
    assert!(context.will_discard_names(flag));
}

#[test]
fn any_nonzero_answer_means_discarding() {
    let (context, _) = Context::new(handle(0x1000), false);
    assert!(context.will_discard_names(1));
    assert!(context.will_discard_names(-1));
    assert!(context.will_discard_names(256));
    assert!(!context.will_discard_names(0));
}

#[test]
fn context_keeps_its_address() {
    let (mut context, _) = Context::new(handle(0xdead0), true);
    assert_eq!(context.as_mut_ptr(), 0xdead0);
    context.discard_names(false);
    assert_eq!(context.as_mut_ptr(), 0xdead0);
}

#[test]
fn default_context_keeps_names() {
    let (context, code) = Context::default(handle(0x1000));
    assert_eq!(code, 0);
    assert!(!context.will_discard_names(code));
}
