use asynx::outcome::Poll;
use asynx::unsync::{set_exception, ExceptionContext};

#[test]
fn fresh_context_has_no_catch_running() {
    let ctx = ExceptionContext::<String>::new();
    assert_eq!(ctx.catch_depth(), 0);
    let ctx: ExceptionContext<String> = Default::default();
    assert_eq!(ctx.catch_depth(), 0);
}

#[test]
fn catch_without_throw_gives_ok() {
    let mut ctx = ExceptionContext::<String>::new();
    ctx.enter_catch();
    assert_eq!(ctx.catch_depth(), 1);
    let out = ctx.settle_catch(Poll::Ready("success".to_string()));
    ctx.exit_catch();
    assert_eq!(out, Poll::Ready(Ok("success".to_string())));
    assert_eq!(ctx.catch_depth(), 0);
}

#[test]
fn catch_of_pending_inner_stays_pending() {
    let mut ctx = ExceptionContext::<String>::new();
    ctx.enter_catch();
    let out = ctx.settle_catch::<u8>(Poll::Pending);
    ctx.exit_catch();
    assert_eq!(out, Poll::Pending);
}

#[test]
fn thrown_exception_is_caught_as_err() {
    let mut ctx = ExceptionContext::<String>::new();
    ctx.enter_catch();
    ctx.throw("failed".to_string());
    // The throwing computation never finishes: the inner poll is pending.
    let out = ctx.settle_catch::<String>(Poll::Pending);
    ctx.exit_catch();
    assert_eq!(out, Poll::Ready(Err("failed".to_string())));
    assert_eq!(ctx.catch_depth(), 0);
}

#[test]
fn exception_wins_over_a_ready_inner_poll() {
    let mut ctx = ExceptionContext::<i32>::new();
    ctx.enter_catch();
    ctx.throw(7);
    let out = ctx.settle_catch(Poll::Ready(1u8));
    ctx.exit_catch();
    assert_eq!(out, Poll::Ready(Err(7)));
}

#[test]
fn exception_is_taken_only_once() {
    let mut ctx = ExceptionContext::<i32>::new();
    ctx.enter_catch();
    ctx.throw(7);
    assert_eq!(ctx.settle_catch::<u8>(Poll::Pending), Poll::Ready(Err(7)));
    assert_eq!(ctx.settle_catch(Poll::Ready(2u8)), Poll::Ready(Ok(2)));
    ctx.exit_catch();
}

#[test]
fn nested_catches_on_one_context() {
    let mut ctx = ExceptionContext::<u32>::new();
    // outer catch
    ctx.enter_catch();
    // first inner catch
    ctx.enter_catch();
    assert_eq!(ctx.catch_depth(), 2);
    ctx.throw(1);
    let r = ctx.settle_catch::<()>(Poll::Pending);
    ctx.exit_catch();
    assert_eq!(r, Poll::Ready(Err(1)));
    // second inner catch
    ctx.enter_catch();
    ctx.throw(2);
    let r = ctx.settle_catch::<()>(Poll::Pending);
    ctx.exit_catch();
    assert_eq!(r, Poll::Ready(Err(2)));
    // back in the outer catch
    assert_eq!(ctx.catch_depth(), 1);
    ctx.throw(3);
    let r = ctx.settle_catch::<()>(Poll::Pending);
    ctx.exit_catch();
    assert_eq!(r, Poll::Ready(Err(3)));
    assert_eq!(ctx.catch_depth(), 0);
}

#[test]
fn latest_throw_replaces_an_untaken_one() {
    let mut ctx = ExceptionContext::<i32>::new();
    ctx.enter_catch();
    ctx.throw(1);
    ctx.throw(2);
    assert_eq!(ctx.settle_catch::<()>(Poll::Pending), Poll::Ready(Err(2)));
    ctx.exit_catch();
}

#[test]
fn set_exception_works_outside_of_catch() {
    let mut ctx = ExceptionContext::<i32>::new();
    set_exception(&mut ctx, 5);
    assert_eq!(ctx.catch_depth(), 0);
    ctx.enter_catch();
    assert_eq!(ctx.settle_catch::<()>(Poll::Pending), Poll::Ready(Err(5)));
    ctx.exit_catch();
}

#[test]
fn catch_can_be_used_again_after_a_throw() {
    let mut ctx = ExceptionContext::<i32>::new();
    ctx.enter_catch();
    ctx.throw(1);
    assert_eq!(ctx.settle_catch::<i32>(Poll::Pending), Poll::Ready(Err(1)));
    ctx.exit_catch();
    ctx.enter_catch();
    assert_eq!(ctx.settle_catch(Poll::Ready(9)), Poll::Ready(Ok(9)));
    ctx.exit_catch();
    assert_eq!(ctx.catch_depth(), 0);
}
