use vstd::prelude::*;

verus! {

/// Why a context could not be built or could not give a device.
#[derive(Clone, Copy, Debug, PartialEq, Eq, Structural)]
pub enum ContextError {
    /// The API runtime could not be located or loaded.
    LoaderError,
    /// The driver refused to create the instance, with its status code.
    InstanceCreationError(i32),
    /// The debug messenger could not be attached, with the driver's status code.
    DebugSetupError(i32),
    /// The instance enumerates no physical device.
    NoDeviceError,
}

/// One destruction that tearing a context down performs.
#[derive(Clone, Copy, Debug, PartialEq, Eq, Structural)]
pub enum Release {
    Messenger(u64),
    Instance(u64),
}

/// What a context holds: the raw handles of its instance and debug messenger
/// while they are alive, and the physical device chosen, if any.
pub struct ContextView {
    pub instance: Option<u64>,
    pub messenger: Option<u64>,
    pub device: Option<u64>,
}

impl ContextView {
    /// A messenger never outlives the instance it was attached to.
    pub open spec fn wf(self) -> bool {
        self.messenger is Some ==> self.instance is Some
    }

    /// The destructions that tearing down performs: the messenger first, then
    /// the instance, each only if it is alive.
    pub open spec fn releases(self) -> Seq<Release> {
        let m = match self.messenger {
            Some(h) => seq![Release::Messenger(h)],
            None => Seq::empty(),
        };
        let i = match self.instance {
            Some(h) => seq![Release::Instance(h)],
            None => Seq::empty(),
        };
        m + i
    }

    /// The same context once torn down: nothing is alive, the device choice
    /// is remembered.
    pub open spec fn torn_down(self) -> ContextView {
        ContextView { instance: None, messenger: None, device: self.device }
    }
}

/// Sole owner of an instance and of the debug messenger attached to it, with
/// the physical device chosen among those the instance enumerates.
pub struct Context {
    instance: Option<u64>,
    messenger: Option<u64>,
    device: Option<u64>,
}

impl View for Context {
    type V = ContextView;

    closed spec fn view(&self) -> ContextView {
        ContextView { instance: self.instance, messenger: self.messenger, device: self.device }
    }
}

impl Context {
    /// A context that owns a live instance and the messenger attached to it,
    /// with no device chosen yet.
    pub(crate) fn assemble(instance: u64, messenger: u64) -> (r: Context)
        ensures
            r@ == (ContextView { instance: Some(instance), messenger: Some(messenger), device: None }),
    {
        Context { instance: Some(instance), messenger: Some(messenger), device: None }
    }

    /// Picks the first of the physical devices the instance enumerates,
    /// remembering it in place of any earlier choice.
    pub fn choose_device(&mut self, devices: &Vec<u64>) -> (r: Result<u64, ContextError>)
        ensures
            devices@.len() == 0 <==> r == Err::<u64, ContextError>(ContextError::NoDeviceError),
            devices@.len() == 0 ==> final(self)@ == old(self)@,
            devices@.len() > 0 ==> r == Ok::<u64, ContextError>(devices@[0]) && final(self)@ == (
            ContextView { device: Some(devices@[0]), ..old(self)@ }),
    {
        if devices.len() == 0 {
            return Err(ContextError::NoDeviceError);
        }
        let device = devices[0];
        self.device = Some(device);
        Ok(device)
    }

    /// Takes the context's handles out for destruction: the messenger before
    /// the instance. Afterwards nothing is alive, so a second call releases
    /// nothing.
    pub fn teardown(&mut self) -> (r: Vec<Release>)
        ensures
            r@ == old(self)@.releases(),
            final(self)@ == old(self)@.torn_down(),
    {
        let mut r: Vec<Release> = Vec::new();
        if let Some(h) = self.messenger {
            r.push(Release::Messenger(h));
        }
        if let Some(h) = self.instance {
            r.push(Release::Instance(h));
        }
        self.messenger = None;
        self.instance = None;
        proof {
            assert(r@ =~= old(self)@.releases());
        }
        r
    }

    pub fn instance(&self) -> (r: Option<u64>)
        ensures
            r == self@.instance,
    {
        self.instance
    }

    pub fn messenger(&self) -> (r: Option<u64>)
        ensures
            r == self@.messenger,
    {
        self.messenger
    }

    pub fn device(&self) -> (r: Option<u64>)
        ensures
            r == self@.device,
    {
        self.device
    }
}

/// Tearing a context down twice destroys nothing the second time, and the
/// first teardown destroys each live handle once.
pub proof fn lemma_teardown_once(c: ContextView)
    requires
        c.wf(),
    ensures
        c.torn_down().releases() == Seq::<Release>::empty(),
        c.releases().no_duplicates(),
        c.torn_down().wf(),
{
    assert(c.torn_down().releases() =~= Seq::<Release>::empty());
}

} // verus!
