use monorail::actor::{
    death_plan, is_managed, multiplex_actor_channels, resolve_registration, translate_local,
    ActorBuilder, ActorManagementError, ActorMessage, AnonymousAddr, BuilderError,
    NormalActorMessage, ResolutionError, ShutdownPlan, ShutdownStep, SupervisorMessage,
    SupervisorMsgType,
};
use monorail::select::Select2Result;
use monorail::shard::ShardId;
use monorail::signals::ActorSignal;

fn addr(shard: usize, index: u64) -> AnonymousAddr {
    AnonymousAddr { shard: ShardId::new(shard), local_index: index }
}

#[test]
fn multiplex_dispatches() {
    let m: Select2Result<Result<NormalActorMessage<u8, ()>, ()>, ActorSignal> =
        Select2Result::Left(Ok(NormalActorMessage::Message(3)));
    assert!(matches!(multiplex_actor_channels(m), Ok(ActorMessage::Message(3))));
    let s: Select2Result<Result<NormalActorMessage<u8, ()>, ()>, ActorSignal> =
        Select2Result::Right(ActorSignal::Kill);
    assert!(matches!(multiplex_actor_channels(s), Ok(ActorMessage::Signal(ActorSignal::Kill))));
    let e: Select2Result<Result<NormalActorMessage<u8, ()>, &str>, ActorSignal> =
        Select2Result::Left(Err("closed"));
    assert!(matches!(multiplex_actor_channels(e), Err("closed")));
    let sup = SupervisorMessage { source: addr(0, 1), msg_type: SupervisorMsgType::Stopped };
    let v: Select2Result<Result<NormalActorMessage<u8, ()>, ()>, ActorSignal> =
        Select2Result::Left(Ok(NormalActorMessage::Supervision(sup)));
    assert!(matches!(multiplex_actor_channels(v), Ok(ActorMessage::Supervision(s)) if s == sup));
    let c: Select2Result<Result<NormalActorMessage<u8, u16>, ()>, ActorSignal> =
        Select2Result::Left(Ok(NormalActorMessage::Call(9)));
    assert!(matches!(multiplex_actor_channels(c), Ok(ActorMessage::Call(9))));
}

#[test]
fn death_plan_reports_to_parent() {
    let (sig, report) = death_plan(ActorSignal::Kill, addr(1, 2), Some(addr(0, 7)));
    assert_eq!(sig, ActorSignal::Kill);
    assert_eq!(
        report,
        Some((addr(0, 7), SupervisorMessage { source: addr(1, 2), msg_type: SupervisorMsgType::Killed }))
    );
    let (sig, report) = death_plan(ActorSignal::Stop, addr(1, 2), Some(addr(0, 7)));
    assert_eq!(sig, ActorSignal::Stop);
    assert_eq!(report.unwrap().1.msg_type, SupervisorMsgType::Stopped);
    assert_eq!(death_plan(ActorSignal::Stop, addr(1, 2), None).1, None);
}

#[test]
fn registrations_resolve() {
    assert_eq!(resolve_registration(None, true), Err(ResolutionError::NoEntry));
    assert_eq!(resolve_registration(Some(addr(2, 3)), false), Err(ResolutionError::IncorrectType));
    assert_eq!(resolve_registration(Some(addr(2, 3)), true), Ok(addr(2, 3)));
}

#[test]
fn local_translation_checks_shard_then_slot() {
    assert_eq!(translate_local(ShardId::new(0), addr(1, 0), true), Err(ActorManagementError::NotLocal));
    assert_eq!(
        translate_local(ShardId::new(1), addr(1, 0), false),
        Err(ActorManagementError::ActorNoLongerExists)
    );
    assert_eq!(translate_local(ShardId::new(1), addr(1, 0), true), Ok(()));
    assert!(!is_managed(ShardId::new(0), addr(1, 0), true));
    assert!(!is_managed(ShardId::new(1), addr(1, 0), false));
    assert!(is_managed(ShardId::new(1), addr(1, 0), true));
}

#[test]
fn builder_requires_arguments() {
    let b: ActorBuilder<i32> = ActorBuilder::new().with_name("my_actor");
    assert_eq!(b.into_parts(), Err(BuilderError::MissingArguments));
    let b = ActorBuilder::new().with_args(42).with_name("my_actor");
    assert_eq!(b.into_parts(), Ok((42, Some("my_actor"))));
    let b = ActorBuilder::new().with_args(1);
    assert_eq!(b.into_parts(), Ok((1, None)));
}

#[test]
fn shutdown_runs_in_order() {
    let this = addr(1, 7);
    let parent = addr(0, 3);
    let mut plan = ShutdownPlan::new(ActorSignal::Kill, this, Some(parent), 2, 1);
    let expected = [
        ShutdownStep::SignalChild(0, ActorSignal::Kill),
        ShutdownStep::SignalChild(1, ActorSignal::Kill),
        ShutdownStep::SignalForeign(0, ActorSignal::Kill),
        ShutdownStep::AwaitChild(0),
        ShutdownStep::AwaitChild(1),
        ShutdownStep::Unmanage(this),
        ShutdownStep::PostStop,
        ShutdownStep::Report(parent, SupervisorMessage { source: this, msg_type: SupervisorMsgType::Killed }),
        ShutdownStep::Done,
        ShutdownStep::Done,
    ];
    for step in expected {
        assert_eq!(plan.next_step(), step);
    }
}

#[test]
fn shutdown_without_parent_or_children() {
    let this = addr(2, 1);
    let mut plan = ShutdownPlan::new(ActorSignal::Stop, this, None, 0, 0);
    assert_eq!(plan.next_step(), ShutdownStep::Unmanage(this));
    assert_eq!(plan.next_step(), ShutdownStep::PostStop);
    assert_eq!(plan.next_step(), ShutdownStep::Done);
}
