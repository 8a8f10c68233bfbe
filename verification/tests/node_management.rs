use typestate_pattern::states;
use typestate_pattern::Node;
use typestate_pattern::NodeContext;
use typestate_pattern::NodeError;

#[test]
#[allow(unused_variables)]
fn new_node_in_valid_state() {
    let node = Node::new(NodeContext::default());
    let node = Node::<states::New>::new(NodeContext::default());

    // The following will NOT compile:
    // let node = Node::<states::Running>::new(NodeContext::default());
    // let node = Node::<states::Leaving>::new(NodeContext::default());
    // ...
}

#[test]
#[allow(unused_variables)]
fn fail_node() {
    let node = Node::new(NodeContext::default()).fail("some reason");
    let node = Node::<states::New>::new(NodeContext::default()).fail("some reason");

    // You can call `fail` on any node that is in an active state.
    let failed_from_syncing_node = Node::new(NodeContext::default())
        .start()
        .unwrap()
        .fail("some reason");

    // The following will NOT compile, as `Node<Failed>` doesn't satisfy
    // `NodeStateActive`:
    //
    // let node = Node::new(NodeContext::default()).fail("reason").fail("reason");
}

#[test]
fn shared_context() {
    let ctx1 = NodeContext::new("foobar");
    let node = Node::new(ctx1.clone());

    // To `Syncing` state
    let node = node.start().unwrap();
    assert_eq!(node.ctx(), &ctx1);

    // To `Running` state
    let node = node.run().unwrap();
    assert_eq!(node.ctx(), &ctx1);

    // To `Leaving` state
    let node = node.stop().unwrap();
    assert_eq!(node.ctx(), &ctx1);

    // To `Removed` state
    let node = node.remove().unwrap();
    assert_eq!(node.ctx(), &ctx1);
}

#[test]
fn failures() {
    let node = Node::new(NodeContext::default());

    // Fail the node
    let node = node.fail("some reason");

    // The following will compile for `Node<Failed>` only (other node types do not
    // have this method/state data):
    assert_eq!(node.reason(), "some reason");
}

#[test]
fn context_holds_the_given_name() {
    let ctx = NodeContext::new("alpha");
    assert_eq!(ctx.name, "alpha");
}

#[test]
fn default_context_has_empty_name() {
    let ctx = NodeContext::default();
    assert_eq!(ctx.name, "");
}

#[test]
fn empty_name_round_trips() {
    let ctx = NodeContext::new("");
    assert_eq!(ctx, NodeContext::default());
}

#[test]
fn fail_from_every_active_state() {
    let ctx = NodeContext::new("n");

    let from_new = Node::new(ctx.clone()).fail("r1");
    assert_eq!(from_new.reason(), "r1");

    let from_syncing = Node::new(ctx.clone()).start().unwrap().fail("r2");
    assert_eq!(from_syncing.reason(), "r2");

    let from_running = Node::new(ctx.clone())
        .start()
        .unwrap()
        .run()
        .unwrap()
        .fail("r3");
    assert_eq!(from_running.reason(), "r3");

    let from_leaving = Node::new(ctx.clone())
        .start()
        .unwrap()
        .run()
        .unwrap()
        .stop()
        .unwrap()
        .fail("r4");
    assert_eq!(from_leaving.reason(), "r4");

    // `Failed` and `Removed` are not active states: a further `fail` on either
    // is rejected at compile time, not at run time.
}

#[test]
fn fail_keeps_the_context() {
    let ctx = NodeContext::new("keeper");
    let node = Node::new(ctx.clone()).fail("gone");
    assert_eq!(node.ctx(), &ctx);
}

#[test]
fn removed_reached_from_leaving_and_from_failed() {
    let ctx = NodeContext::new("either way");

    let via_leaving = Node::new(ctx.clone())
        .start()
        .unwrap()
        .run()
        .unwrap()
        .stop()
        .unwrap()
        .remove()
        .unwrap();
    assert_eq!(via_leaving.ctx(), &ctx);

    let via_failed = Node::new(ctx.clone()).fail("broken").remove().unwrap();
    assert_eq!(via_failed.ctx(), &ctx);

    // `Removed` is terminal: no transition method exists on it, so any
    // further step is rejected at compile time.
}

#[test]
fn fail_midway_then_remove() {
    let ctx = NodeContext::new("midway");
    let node = Node::new(ctx.clone()).start().unwrap();
    let node = node.fail("x");
    assert_eq!(node.reason(), "x");
    assert_eq!(node.ctx(), &ctx);
    let node = node.remove().unwrap();
    assert_eq!(node.ctx(), &ctx);
}

#[test]
fn error_carries_its_message() {
    let err = NodeError::new(String::from("sync incomplete"));
    assert_eq!(err.message(), "sync incomplete");
}
