use generator::context::{Context, ContextState, ContextStack};
use generator::stack::Stack;

fn context_on(base: usize) -> Context {
    Context::new(Stack::new(base, base + 0x10000, base, 0x1000))
}

#[test]
fn new_chain_is_empty() {
    let env = ContextStack::new();
    assert_eq!(env.len(), 0);
}

#[test]
fn fresh_context_starts_clean() {
    let c = context_on(0x1000);
    assert_eq!(c.regs.regs, [0usize; 21]);
    assert!(c.err.is_none());
    assert!(matches!(c.state, ContextState::Fresh));
    assert_eq!(c.stack.base, 0x1000);
    assert_eq!(c.stack.top, 0x11000);
}

#[test]
fn top_is_most_recent_push() {
    let mut env = ContextStack::new();
    env.push(context_on(0x10000));
    assert_eq!(env.top().stack.base, 0x10000);
    env.push(context_on(0x20000));
    assert_eq!(env.top().stack.base, 0x20000);
    env.push(context_on(0x30000));
    assert_eq!(env.top().stack.base, 0x30000);
    assert_eq!(env.len(), 3);
}

#[test]
fn pops_come_in_reverse_push_order() {
    let mut env = ContextStack::new();
    env.push(context_on(0x10000));
    env.push(context_on(0x20000));
    env.push(context_on(0x30000));

    assert_eq!(env.pop_context().stack.base, 0x30000);
    assert_eq!(env.pop_context().stack.base, 0x20000);
    assert_eq!(env.top().stack.base, 0x10000);
    assert_eq!(env.pop_context().stack.base, 0x10000);
    assert_eq!(env.len(), 0);
}

#[test]
fn stack_guard_membership_bounds() {
    let stack = Stack::new(0x1000, 0x11000, 0x1000, 0x1000);
    assert!(!stack.contains(0xFFF));
    assert!(stack.contains(0x1000));
    assert!(stack.contains(0x1FFF));
    assert!(!stack.contains(0x2000));
    assert_eq!(stack.end(), 0x11000);

    // an empty guard region contains nothing
    let rootish = Stack::new(0x100000, 0x140000, 0x100000, 0);
    assert!(!rootish.contains(0x100000));
}
