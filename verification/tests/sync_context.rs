use asynx::outcome::{settle, Poll};
use asynx::sync::ExceptionContext;

#[test]
fn sync_catch_without_throw_gives_ok() {
    let mut ctx = ExceptionContext::<String>::new();
    let out = ctx.settle_catch(Poll::Ready("success".to_string()));
    assert_eq!(out, Poll::Ready(Ok("success".to_string())));
}

#[test]
fn sync_catch_of_pending_inner_stays_pending() {
    let mut ctx: ExceptionContext<String> = Default::default();
    assert_eq!(ctx.settle_catch::<u8>(Poll::Pending), Poll::Pending);
}

#[test]
fn sync_thrown_exception_is_caught_as_err() {
    let mut ctx = ExceptionContext::<String>::new();
    assert!(ctx.reserve_throw());
    ctx.publish_exception("failed".to_string());
    let out = ctx.settle_catch::<String>(Poll::Pending);
    assert_eq!(out, Poll::Ready(Err("failed".to_string())));
}

#[test]
fn second_throw_is_refused() {
    let mut ctx = ExceptionContext::<u32>::new();
    assert!(ctx.reserve_throw());
    assert!(!ctx.reserve_throw());
    ctx.publish_exception(1);
    assert!(!ctx.reserve_throw());
    assert_eq!(ctx.try_take_exception(), Some(1));
    assert!(!ctx.reserve_throw());
}

#[test]
fn exception_comes_out_once() {
    let mut ctx = ExceptionContext::<u32>::new();
    assert!(ctx.reserve_throw());
    ctx.publish_exception(4);
    assert_eq!(ctx.try_take_exception(), Some(4));
    assert_eq!(ctx.try_take_exception(), None);
    assert_eq!(ctx.settle_catch(Poll::Ready(0u8)), Poll::Ready(Ok(0)));
}

#[test]
fn nothing_comes_out_while_throwing() {
    let mut ctx = ExceptionContext::<u32>::new();
    assert_eq!(ctx.try_take_exception(), None);
    assert!(ctx.reserve_throw());
    assert_eq!(ctx.try_take_exception(), None);
    assert_eq!(ctx.settle_catch::<u8>(Poll::Pending), Poll::Pending);
    ctx.publish_exception(3);
    assert_eq!(ctx.try_take_exception(), Some(3));
}

#[test]
fn settle_prefers_the_exception() {
    assert_eq!(settle(Poll::Ready(1u8), Some("e")), Poll::Ready(Err("e")));
    assert_eq!(settle::<u8, &str>(Poll::Pending, Some("e")), Poll::Ready(Err("e")));
    assert_eq!(settle::<u8, &str>(Poll::Ready(1), None), Poll::Ready(Ok(1)));
    assert_eq!(settle::<u8, &str>(Poll::Pending, None), Poll::Pending);
}

#[test]
fn second_catch_is_refused() {
    let mut ctx = ExceptionContext::<u32>::new();
    assert!(ctx.begin_catch());
    assert_eq!(ctx.settle_catch(Poll::Ready(1u8)), Poll::Ready(Ok(1)));
    assert!(!ctx.begin_catch());
    assert!(!ctx.begin_catch());
}

#[test]
fn catch_refusal_does_not_touch_the_throw() {
    let mut ctx = ExceptionContext::<u32>::new();
    assert!(ctx.begin_catch());
    assert_eq!(ctx.throw(6), None);
    assert!(!ctx.begin_catch());
    assert_eq!(ctx.settle_catch::<u8>(Poll::Pending), Poll::Ready(Err(6)));
}

#[test]
fn whole_throw_is_caught_and_second_is_handed_back() {
    let mut ctx = ExceptionContext::<String>::new();
    assert!(ctx.begin_catch());
    assert_eq!(ctx.throw("failed".to_string()), None);
    assert_eq!(ctx.throw("again".to_string()), Some("again".to_string()));
    assert_eq!(
        ctx.settle_catch::<String>(Poll::Pending),
        Poll::Ready(Err("failed".to_string()))
    );
    assert_eq!(ctx.throw("late".to_string()), Some("late".to_string()));
}

#[test]
fn throw_is_refused_while_a_reservation_is_held() {
    let mut ctx = ExceptionContext::<u32>::new();
    assert!(ctx.reserve_throw());
    assert_eq!(ctx.throw(2), Some(2));
    ctx.publish_exception(1);
    assert_eq!(ctx.try_take_exception(), Some(1));
}
