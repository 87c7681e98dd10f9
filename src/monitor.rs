//! Display descriptors: a stable identifier with cached geometry and name.
use vstd::prelude::*;

verus! {

/// Cached geometry and name of a display.
#[derive(Debug, Clone)]
pub struct MonitorData {
    pub width: u32,
    pub height: u32,
    pub x: i32,
    pub y: i32,
    pub name: String,
    pub is_primary: bool,
}

/// A display: its platform identifier and its cached description.
#[derive(Debug, Clone)]
pub struct SafeMonitor {
    monitor_id: u32,
    monitor_data: MonitorData,
}

impl SafeMonitor {
    pub closed spec fn spec_id(&self) -> u32 {
        self.monitor_id
    }

    pub closed spec fn spec_data(&self) -> MonitorData {
        self.monitor_data
    }

    pub fn new(monitor_id: u32, monitor_data: MonitorData) -> (r: SafeMonitor)
        ensures
            r.spec_id() == monitor_id,
            r.spec_data() == monitor_data,
    {
        SafeMonitor { monitor_id, monitor_data }
    }

    pub fn id(&self) -> (r: u32)
        ensures
            r == self.spec_id(),
    {
        self.monitor_id
    }

    pub fn info(&self) -> (r: &MonitorData)
        ensures
            *r == self.spec_data(),
    {
        &self.monitor_data
    }

    pub fn name(&self) -> (r: &str)
        ensures
            r@ == self.spec_data().name@,
    {
        self.monitor_data.name.as_str()
    }

    /// Replace the cached description with a fresh one; the identifier stays.
    pub fn refresh_with(&mut self, monitor_data: MonitorData)
        ensures
            final(self).spec_id() == old(self).spec_id(),
            final(self).spec_data() == monitor_data,
    {
        self.monitor_data = monitor_data;
    }
}

/// Index of the first display with identifier `id` among the first `n`.
pub open spec fn first_with_id(monitors: Seq<SafeMonitor>, id: u32, n: int) -> Option<int>
    decreases n,
{
    if n <= 0 || n > monitors.len() {
        None
    } else {
        match first_with_id(monitors, id, n - 1) {
            Some(i) => Some(i),
            None => if monitors[n - 1].spec_id() == id {
                Some(n - 1)
            } else {
                None
            },
        }
    }
}

proof fn lemma_first_with_id_stable(monitors: Seq<SafeMonitor>, id: u32, n: int)
    requires
        0 <= n <= monitors.len(),
        first_with_id(monitors, id, n) is Some,
    ensures
        first_with_id(monitors, id, monitors.len() as int) == first_with_id(monitors, id, n),
    decreases monitors.len() - n,
{
    if n < monitors.len() {
        lemma_first_with_id_stable(monitors, id, n + 1);
    }
}

/// Position of the first display with identifier `id`, if any.
pub fn find_monitor(monitors: &Vec<SafeMonitor>, id: u32) -> (r: Option<usize>)
    ensures
        r matches Some(i) ==> first_with_id(monitors@, id, monitors@.len() as int) == Some(i as int),
        r is None ==> first_with_id(monitors@, id, monitors@.len() as int) is None,
        r matches Some(i) ==> i < monitors@.len() && monitors@[i as int].spec_id() == id,
        r is None ==> forall|j: int| 0 <= j < monitors@.len() ==> #[trigger] monitors@[j].spec_id() != id,
{
    let mut i: usize = 0;
    while i < monitors.len()
        invariant
            i <= monitors@.len(),
            first_with_id(monitors@, id, i as int) is None,
            forall|j: int| 0 <= j < i ==> #[trigger] monitors@[j].spec_id() != id,
        decreases monitors@.len() - i,
    {
        if monitors[i].id() == id {
            assert(first_with_id(monitors@, id, i + 1) == Some(i as int));
            proof {
                lemma_first_with_id_stable(monitors@, id, i + 1);
            }
            return Some(i);
        }
        i = i + 1;
    }
    None
}

/// Why the displays could not be listed.
#[derive(Debug, Clone)]
pub enum MonitorListError {
    PermissionDenied,
    NoMonitorsFound,
    Other(String),
}

impl MonitorListError {
    /// The text shown for this error.
    pub fn message(&self) -> (r: String)
        ensures
            self matches MonitorListError::Other(msg) ==> r@ == msg@,
            self is NoMonitorsFound ==> r@ == "No monitors found"@,
            self is PermissionDenied ==> r@
                == "Screen recording permission not granted. Check privacy settings."@,
    {
        match self {
            MonitorListError::PermissionDenied => {
                "Screen recording permission not granted. Check privacy settings.".to_owned()
            },
            MonitorListError::NoMonitorsFound => "No monitors found".to_owned(),
            MonitorListError::Other(msg) => msg.clone(),
        }
    }
}

} // verus!
