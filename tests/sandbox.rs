use fusion_sandbox::sandbox::{
    ClassloaderHandle, EmptyProps, FusionSandbox, RuntimeHandle, SandboxAction, SandboxMsg,
    SandboxState, SandboxView,
};

const CL: ClassloaderHandle = ClassloaderHandle { id: 7 };
const RT: RuntimeHandle = RuntimeHandle { id: 9 };

fn ready_sandbox() -> FusionSandbox {
    let (mut sandbox, _) = FusionSandbox::create();
    sandbox.update(SandboxMsg::ClassloaderReady(CL));
    sandbox.update(SandboxMsg::RuntimeReady(RT));
    sandbox
}

#[test]
fn create_starts_bootstrap() {
    let (sandbox, action) = FusionSandbox::create();
    assert_eq!(sandbox.state, SandboxState::Bootstrapping);
    assert_eq!(action, SandboxAction::CreateClassloader);
    assert_eq!(sandbox.view(), SandboxView::Loading);
    assert_eq!(EmptyProps::default(), EmptyProps);
}

#[test]
fn bootstrap_success_reaches_ready() {
    let (mut sandbox, _) = FusionSandbox::create();
    let step = sandbox.update(SandboxMsg::ClassloaderReady(CL));
    assert!(!step.rerender);
    assert_eq!(step.action, SandboxAction::CreateRuntime(CL));
    assert_eq!(sandbox.state, SandboxState::ClassloaderAcquired(CL));
    assert_eq!(sandbox.view(), SandboxView::Loading);
    let step = sandbox.update(SandboxMsg::RuntimeReady(RT));
    assert!(step.rerender);
    assert_eq!(step.action, SandboxAction::Idle);
    assert_eq!(
        sandbox.state,
        SandboxState::Ready { classloader: CL, runtime: RT, last: None }
    );
    assert_eq!(sandbox.view(), SandboxView::Ready(None));
}

#[test]
fn classloader_failure_is_terminal() {
    let (mut sandbox, _) = FusionSandbox::create();
    let step = sandbox.update(SandboxMsg::RuntimeError("no classpath".to_string()));
    assert!(step.rerender);
    assert_eq!(sandbox.state, SandboxState::Faulted("no classpath".to_string()));
    let step = sandbox.update(SandboxMsg::ClassloaderReady(CL));
    assert!(!step.rerender);
    assert_eq!(step.action, SandboxAction::Idle);
    sandbox.update(SandboxMsg::RuntimeReady(RT));
    sandbox.update(SandboxMsg::RuntimeError("later".to_string()));
    assert_eq!(sandbox.state, SandboxState::Faulted("no classpath".to_string()));
    assert_eq!(sandbox.view(), SandboxView::Error("no classpath".to_string()));
}

#[test]
fn runtime_failure_is_terminal() {
    let (mut sandbox, _) = FusionSandbox::create();
    sandbox.update(SandboxMsg::ClassloaderReady(CL));
    sandbox.update(SandboxMsg::RuntimeError("boot".to_string()));
    let step = sandbox.update(SandboxMsg::RuntimeReady(RT));
    assert_eq!(step.action, SandboxAction::Idle);
    assert_eq!(sandbox.state, SandboxState::Faulted("boot".to_string()));
}

#[test]
fn evaluation_success_is_kept() {
    let mut sandbox = ready_sandbox();
    let step = sandbox.update(SandboxMsg::Invoke("(+ 1 2)".to_string()));
    assert!(!step.rerender);
    assert_eq!(step.action, SandboxAction::Evaluate(CL, RT, "(+ 1 2)".to_string()));
    let step = sandbox.update(SandboxMsg::FusionResult(Ok("3".to_string())));
    assert!(step.rerender);
    assert_eq!(
        sandbox.state,
        SandboxState::Ready { classloader: CL, runtime: RT, last: Some(Ok("3".to_string())) }
    );
    assert_eq!(sandbox.view(), SandboxView::Ready(Some(Ok("3".to_string()))));
}

#[test]
fn evaluation_error_stays_ready() {
    let mut sandbox = ready_sandbox();
    sandbox.update(SandboxMsg::Invoke("(+ 1 2)".to_string()));
    sandbox.update(SandboxMsg::FusionResult(Err("boom".to_string())));
    assert_eq!(
        sandbox.state,
        SandboxState::Ready { classloader: CL, runtime: RT, last: Some(Err("boom".to_string())) }
    );
    let step = sandbox.update(SandboxMsg::Invoke("1".to_string()));
    assert_eq!(step.action, SandboxAction::Evaluate(CL, RT, "1".to_string()));
}

#[test]
fn last_resolved_wins() {
    let mut sandbox = ready_sandbox();
    let a = sandbox.update(SandboxMsg::Invoke("A".to_string()));
    let b = sandbox.update(SandboxMsg::Invoke("B".to_string()));
    assert_eq!(a.action, SandboxAction::Evaluate(CL, RT, "A".to_string()));
    assert_eq!(b.action, SandboxAction::Evaluate(CL, RT, "B".to_string()));
    sandbox.update(SandboxMsg::FusionResult(Ok("b".to_string())));
    sandbox.update(SandboxMsg::FusionResult(Ok("a".to_string())));
    assert_eq!(sandbox.view(), SandboxView::Ready(Some(Ok("a".to_string()))));
}

#[test]
fn out_of_order_messages_are_ignored() {
    let (mut sandbox, _) = FusionSandbox::create();
    let step = sandbox.update(SandboxMsg::Invoke("x".to_string()));
    assert_eq!(step.action, SandboxAction::Idle);
    sandbox.update(SandboxMsg::RuntimeReady(RT));
    sandbox.update(SandboxMsg::FusionResult(Ok("x".to_string())));
    assert_eq!(sandbox.state, SandboxState::Bootstrapping);
    let mut ready = ready_sandbox();
    let step = ready.update(SandboxMsg::ClassloaderReady(ClassloaderHandle { id: 1 }));
    assert_eq!(step.action, SandboxAction::Idle);
    assert_eq!(ready.state, SandboxState::Ready { classloader: CL, runtime: RT, last: None });
}
