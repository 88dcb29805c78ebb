use p5::command::{index_list, Command, ContextGate, Dispatch};

#[test]
fn index_list_has_one_index_per_vertex() {
    assert_eq!(index_list(3), vec![0, 1, 2]);
    assert_eq!(index_list(0), Vec::<u32>::new());
    let long = index_list(1000);
    assert_eq!(long.len(), 1000);
    assert_eq!(long[999], 999);
}

#[test]
fn setup_creates_the_context_once() {
    let mut g = ContextGate::new();
    assert!(!g.is_ready());
    assert_eq!(g.dispatch(&Command::<()>::Setup), Dispatch::CreateContext);
    assert!(g.is_ready());
    assert_eq!(g.dispatch(&Command::<()>::Setup), Dispatch::Skip);
    assert!(g.is_ready());
}

#[test]
fn work_before_setup_is_dropped() {
    let mut g = ContextGate::new();
    assert_eq!(g.dispatch(&Command::Draw(5u8)), Dispatch::Skip);
    assert_eq!(g.dispatch(&Command::<u8>::PollEvents), Dispatch::Skip);
    assert_eq!(g.dispatch(&Command::<u8>::SwapBuffers), Dispatch::Skip);
    assert!(!g.is_ready());
}

#[test]
fn work_after_setup_runs() {
    let mut g = ContextGate::new();
    g.dispatch(&Command::<u8>::Setup);
    assert_eq!(g.dispatch(&Command::Draw(5u8)), Dispatch::Run);
    assert_eq!(g.dispatch(&Command::<u8>::PollEvents), Dispatch::Run);
    assert_eq!(g.dispatch(&Command::<u8>::SwapBuffers), Dispatch::Run);
}
