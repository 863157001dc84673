//! Desktop shell state: the running mode shown in the tray and the local
//! services whose health it watches.
use vstd::prelude::*;

use crate::context::opt_view;
use crate::text::{join2, starts_with};

verus! {

/// How the program runs.
#[derive(PartialEq, Eq, Structural, Clone, Copy, Debug)]
pub enum RunningMode {
    Server,
    Desktop,
    Client,
}

/// The label of a running mode.
pub open spec fn mode_label(m: RunningMode) -> Seq<char> {
    match m {
        RunningMode::Desktop => "Desktop"@,
        RunningMode::Server => "Server"@,
        RunningMode::Client => "Client"@,
    }
}

/// The tray's state: the host name once known, and the running mode.
#[derive(Clone, Debug, PartialEq, Eq)]
pub struct TrayManager {
    pub hostname: Option<String>,
    pub running_mode: RunningMode,
}

impl TrayManager {
    /// A tray for the desktop build, with no host name known yet.
    pub fn new() -> (r: TrayManager)
        ensures
            r.running_mode == RunningMode::Desktop,
            r.hostname is None,
    {
        TrayManager { hostname: None, running_mode: RunningMode::Desktop }
    }

    /// The label of the running mode.
    pub fn get_mode_string(&self) -> (r: String)
        ensures
            r@ == mode_label(self.running_mode),
    {
        match self.running_mode {
            RunningMode::Desktop => String::from_str("Desktop"),
            RunningMode::Server => String::from_str("Server"),
            RunningMode::Client => String::from_str("Client"),
        }
    }

    /// The host name, once known.
    pub fn get_hostname(&self) -> (r: Option<String>)
        ensures
            opt_view(r) == opt_view(self.hostname),
    {
        match &self.hostname {
            Some(h) => Some(h.clone()),
            None => None,
        }
    }
}

/// The last known state of one local service.
#[derive(Clone, Debug, PartialEq, Eq)]
pub struct ServiceStatus {
    pub name: String,
    pub running: bool,
    pub port: u16,
    pub url: String,
}

impl View for ServiceStatus {
    type V = (Seq<char>, bool, u16, Seq<char>);

    open spec fn view(&self) -> (Seq<char>, bool, u16, Seq<char>) {
        (self.name@, self.running, self.port, self.url@)
    }
}

impl ServiceStatus {
    /// A copy of this status.
    pub fn copy(&self) -> (r: ServiceStatus)
        ensures
            r@ == self@,
    {
        ServiceStatus {
            name: self.name.clone(),
            running: self.running,
            port: self.port,
            url: self.url.clone(),
        }
    }
}

/// The views of a list of statuses, in order.
pub open spec fn statuses_view(s: Seq<ServiceStatus>) -> Seq<(Seq<char>, bool, u16, Seq<char>)> {
    s.map_values(|x: ServiceStatus| x@)
}

/// The services watched, none known to run yet.
pub open spec fn watched_services() -> Seq<(Seq<char>, bool, u16, Seq<char>)> {
    seq![
        ("API"@, false, 8080u16, "https://localhost:8080"@),
        ("Directory"@, false, 8080u16, "https://localhost:8080"@),
        ("LLM"@, false, 8081u16, "https://localhost:8081"@),
        ("Database"@, false, 5432u16, "postgresql://localhost:5432"@),
        ("Cache"@, false, 6379u16, "redis://localhost:6379"@),
    ]
}

/// The health URL probed for a service: only HTTP and HTTPS services are
/// probed.
pub open spec fn probe_of(url: Seq<char>) -> Option<Seq<char>> {
    if "https://"@.is_prefix_of(url) || "http://"@.is_prefix_of(url) {
        Some(url + "/health"@)
    } else {
        None
    }
}

/// Watches the health of the local services.
pub struct ServiceMonitor {
    pub services: Vec<ServiceStatus>,
}

fn status(name: &str, port: u16, url: &str) -> (r: ServiceStatus)
    ensures
        r@ == (name@, false, port, url@),
{
    ServiceStatus {
        name: String::from_str(name),
        running: false,
        port,
        url: String::from_str(url),
    }
}

/// The health URL to probe for a service URL, if it is probed at all.
pub fn probe_url(url: &str) -> (r: Option<String>)
    ensures
        opt_view(r) == probe_of(url@),
{
    if starts_with(url, "https://") || starts_with(url, "http://") {
        Some(join2(url, "/health"))
    } else {
        None
    }
}

impl ServiceMonitor {
    /// A monitor of the API, directory, LLM, database and cache services.
    pub fn new() -> (r: ServiceMonitor)
        ensures
            statuses_view(r.services@) == watched_services(),
    {
        let mut services: Vec<ServiceStatus> = Vec::new();
        services.push(status("API", 8080, "https://localhost:8080"));
        services.push(status("Directory", 8080, "https://localhost:8080"));
        services.push(status("LLM", 8081, "https://localhost:8081"));
        services.push(status("Database", 5432, "postgresql://localhost:5432"));
        services.push(status("Cache", 6379, "redis://localhost:6379"));
        assert(statuses_view(services@) =~= watched_services());
        ServiceMonitor { services }
    }

    /// The health URL to probe for each service, in order; `None` for a
    /// service that is not probed.
    pub fn probe_targets(&self) -> (r: Vec<Option<String>>)
        ensures
            r@.len() == self.services@.len(),
            forall|i: int|
                0 <= i < r@.len() ==> opt_view(#[trigger] r@[i]) == probe_of(
                    self.services@[i].url@,
                ),
    {
        let mut r: Vec<Option<String>> = Vec::new();
        let mut i: usize = 0;
        while i < self.services.len()
            invariant
                i <= self.services@.len(),
                r@.len() == i,
                forall|k: int|
                    0 <= k < i ==> opt_view(#[trigger] r@[k]) == probe_of(
                        self.services@[k].url@,
                    ),
            decreases self.services@.len() - i,
        {
            r.push(probe_url(self.services[i].url.as_str()));
            i = i + 1;
        }
        r
    }

    /// Records the outcome of the probes, one per service in order, and
    /// returns the statuses. A service that is not probed is marked down.
    pub fn record_probes(&mut self, answered: &Vec<bool>) -> (r: Vec<ServiceStatus>)
        requires
            answered@.len() == old(self).services@.len(),
        ensures
            final(self).services@.len() == old(self).services@.len(),
            forall|i: int|
                0 <= i < old(self).services@.len() ==> #[trigger] final(self).services@[i]@ == (
                    old(self).services@[i].name@,
                    answered@[i] && probe_of(old(self).services@[i].url@) is Some,
                    old(self).services@[i].port,
                    old(self).services@[i].url@,
                ),
            statuses_view(r@) == statuses_view(final(self).services@),
    {
        let n = self.services.len();
        let mut i: usize = 0;
        while i < n
            invariant
                n == old(self).services@.len(),
                n == answered@.len(),
                self.services@.len() == n,
                i <= n,
                forall|k: int|
                    i <= k < n ==> #[trigger] self.services@[k] == old(self).services@[k],
                forall|k: int|
                    0 <= k < i ==> #[trigger] self.services@[k]@ == (
                        old(self).services@[k].name@,
                        answered@[k] && probe_of(old(self).services@[k].url@) is Some,
                        old(self).services@[k].port,
                        old(self).services@[k].url@,
                    ),
            decreases n - i,
        {
            let probed = probe_url(self.services[i].url.as_str()).is_some();
            let mut s = self.services[i].copy();
            s.running = answered[i] && probed;
            self.services.set(i, s);
            i = i + 1;
        }
        self.snapshot()
    }

    /// A copy of the statuses, in order.
    pub fn snapshot(&self) -> (r: Vec<ServiceStatus>)
        ensures
            statuses_view(r@) == statuses_view(self.services@),
    {
        let mut r: Vec<ServiceStatus> = Vec::new();
        let mut i: usize = 0;
        while i < self.services.len()
            invariant
                i <= self.services@.len(),
                r@.len() == i,
                forall|k: int| 0 <= k < i ==> #[trigger] r@[k]@ == self.services@[k]@,
            decreases self.services@.len() - i,
        {
            r.push(self.services[i].copy());
            i = i + 1;
        }
        assert(statuses_view(r@) =~= statuses_view(self.services@));
        r
    }
}

} // verus!
