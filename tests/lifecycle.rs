use vulkan_context::context::{Context, ContextError, Release};
use vulkan_context::lifecycle::{new, Action, Construction, Event, Stage};
use vulkan_context::version::ApiVersion;

/// A driver that hands out fixed handles, fails where it is told to, and
/// records every call made to it.
struct FakeDriver {
    loader_present: bool,
    instance_status: Result<u64, i32>,
    messenger_status: Result<u64, i32>,
    calls: Vec<String>,
}

impl FakeDriver {
    fn succeeding() -> FakeDriver {
        FakeDriver {
            loader_present: true,
            instance_status: Ok(0x10),
            messenger_status: Ok(0x20),
            calls: Vec::new(),
        }
    }

    fn build(&mut self, mut c: Construction) -> Result<Context, ContextError> {
        loop {
            let event = match c.action() {
                Action::LoadEntry => {
                    self.calls.push("load".to_string());
                    if self.loader_present {
                        Event::EntryLoaded
                    } else {
                        Event::EntryMissing
                    }
                }
                Action::CreateInstance => {
                    self.calls.push("create_instance".to_string());
                    match self.instance_status {
                        Ok(h) => Event::InstanceCreated(h),
                        Err(code) => Event::InstanceRejected(code),
                    }
                }
                Action::CreateMessenger(instance) => {
                    self.calls.push(format!("create_messenger({instance})"));
                    match self.messenger_status {
                        Ok(h) => Event::MessengerCreated(h),
                        Err(code) => Event::MessengerRejected(code),
                    }
                }
                Action::DestroyInstance(h) => {
                    self.calls.push(format!("destroy_instance({h})"));
                    Event::InstanceDestroyed
                }
                Action::Done => return c.finish(),
            };
            assert!(c.accepts(event));
            c.step(event);
        }
    }

    fn drop_context(&mut self, ctx: &mut Context) {
        for r in ctx.teardown() {
            match r {
                Release::Messenger(h) => self.calls.push(format!("destroy_messenger({h})")),
                Release::Instance(h) => self.calls.push(format!("destroy_instance({h})")),
            }
        }
    }

    fn count(&self, call: &str) -> usize {
        self.calls.iter().filter(|c| c.as_str() == call).count()
    }
}

fn version_1_3_216() -> ApiVersion {
    ApiVersion { major: 1, minor: 3, patch: 216 }
}

#[test]
fn end_to_end_with_succeeding_driver() {
    let mut driver = FakeDriver::succeeding();
    let mut ctx = driver.build(new("T", "E", version_1_3_216())).unwrap();
    assert_eq!(ctx.device(), None);
    assert_eq!(ctx.instance(), Some(0x10));
    assert_eq!(ctx.messenger(), Some(0x20));
    assert_eq!(ctx.choose_device(&vec![101, 102, 103]), Ok(101));
    assert_eq!(ctx.device(), Some(101));
    driver.drop_context(&mut ctx);
    assert_eq!(
        driver.calls,
        vec!["load", "create_instance", "create_messenger(16)", "destroy_messenger(32)", "destroy_instance(16)"]
    );
    assert_eq!(driver.count("destroy_messenger(32)"), 1);
    assert_eq!(driver.count("destroy_instance(16)"), 1);
}

#[test]
fn messenger_destroyed_before_instance() {
    let mut driver = FakeDriver::succeeding();
    driver.instance_status = Ok(7);
    driver.messenger_status = Ok(9);
    let mut ctx = driver.build(new("app", "engine", version_1_3_216())).unwrap();
    assert_eq!(ctx.teardown(), vec![Release::Messenger(9), Release::Instance(7)]);
}

#[test]
fn messenger_failure_rolls_back_instance() {
    let mut driver = FakeDriver::succeeding();
    driver.messenger_status = Err(-7);
    let r = driver.build(new("T", "E", version_1_3_216()));
    assert_eq!(r.err(), Some(ContextError::DebugSetupError(-7)));
    assert_eq!(
        driver.calls,
        vec!["load", "create_instance", "create_messenger(16)", "destroy_instance(16)"]
    );
    assert_eq!(driver.count("destroy_instance(16)"), 1);
}

#[test]
fn instance_failure_destroys_nothing() {
    let mut driver = FakeDriver::succeeding();
    driver.instance_status = Err(-6);
    let r = driver.build(new("T", "E", version_1_3_216()));
    assert_eq!(r.err(), Some(ContextError::InstanceCreationError(-6)));
    assert_eq!(driver.calls, vec!["load", "create_instance"]);
}

#[test]
fn missing_loader_is_reported() {
    let mut driver = FakeDriver::succeeding();
    driver.loader_present = false;
    let r = driver.build(new("T", "E", version_1_3_216()));
    assert_eq!(r.err(), Some(ContextError::LoaderError));
    assert_eq!(driver.calls, vec!["load"]);
}

#[test]
fn second_teardown_releases_nothing() {
    let mut driver = FakeDriver::succeeding();
    let mut ctx = driver.build(new("T", "E", version_1_3_216())).unwrap();
    assert_eq!(ctx.teardown().len(), 2);
    assert_eq!(ctx.teardown(), Vec::<Release>::new());
    assert_eq!(ctx.instance(), None);
    assert_eq!(ctx.messenger(), None);
}

#[test]
fn choose_device_picks_first() {
    let mut ctx = FakeDriver::succeeding().build(new("T", "E", version_1_3_216())).unwrap();
    assert_eq!(ctx.choose_device(&vec![1, 2, 3]), Ok(1));
    assert_eq!(ctx.choose_device(&vec![3, 2, 1]), Ok(3));
    assert_eq!(ctx.device(), Some(3));
}

#[test]
fn choose_device_without_devices_fails() {
    let mut ctx = FakeDriver::succeeding().build(new("T", "E", version_1_3_216())).unwrap();
    assert_eq!(ctx.choose_device(&vec![5]), Ok(5));
    assert_eq!(ctx.choose_device(&Vec::new()), Err(ContextError::NoDeviceError));
    assert_eq!(ctx.device(), Some(5));
}

#[test]
fn stages_accept_only_their_answers() {
    let mut c = new("T", "E", version_1_3_216());
    assert_eq!(c.stage, Stage::Loading);
    assert!(!c.accepts(Event::InstanceCreated(1)));
    assert!(!c.accepts(Event::InstanceDestroyed));
    c.step(Event::EntryLoaded);
    assert_eq!(c.action(), Action::CreateInstance);
    assert!(!c.accepts(Event::EntryLoaded));
    c.step(Event::InstanceCreated(4));
    assert_eq!(c.stage, Stage::AttachingMessenger { instance: 4 });
    c.step(Event::MessengerRejected(-1));
    assert_eq!(c.stage, Stage::RollingBack { instance: 4, code: -1 });
    assert_eq!(c.action(), Action::DestroyInstance(4));
    assert!(!c.accepts(Event::MessengerCreated(2)));
    c.step(Event::InstanceDestroyed);
    assert_eq!(c.action(), Action::Done);
    assert!(!c.accepts(Event::EntryLoaded));
}
