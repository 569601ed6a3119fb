//! The services a development network is made of, and the health reports
//! that polling them produces.

use vstd::prelude::*;
use vstd::string::StringExecFns;
use crate::text::str_eq;

verus! {

/// A service whose readiness the bootstrap waits for.
#[derive(Clone, Copy, Debug, PartialEq, Eq, Structural)]
pub enum Service {
    /// The Zebra node.
    Node,
    /// The lightwalletd indexing backend.
    Lightwalletd,
    /// The Zaino indexing backend.
    Zaino,
    /// The faucet, which serves the wallet.
    Faucet,
}

impl Service {
    /// The name under which the service is shown to the operator.
    pub open spec fn label_view(self) -> Seq<char> {
        match self {
            Service::Node => "Zebra"@,
            Service::Lightwalletd => "Lightwalletd"@,
            Service::Zaino => "Zaino"@,
            Service::Faucet => "Faucet"@,
        }
    }

    pub fn label(&self) -> (name: &'static str)
        ensures
            name@ == self.label_view(),
    {
        match self {
            Service::Node => "Zebra",
            Service::Lightwalletd => "Lightwalletd",
            Service::Zaino => "Zaino",
            Service::Faucet => "Faucet",
        }
    }

    /// The words for a service that did not become ready in time.
    pub fn not_ready_message(&self) -> (text: String)
        ensures
            text@ == self.label_view() + " not ready"@,
    {
        String::from_str(self.label()).concat(" not ready")
    }
}

/// The health of one service as one poll found it.
pub struct ServiceHealthStatus {
    pub service: Service,
    pub ready: bool,
    /// What went wrong, where the service was not ready.
    pub last_error: Option<String>,
}

/// What a `ServiceHealthStatus` holds, as plain values.
pub struct ServiceHealthView {
    pub service: Service,
    pub ready: bool,
    pub last_error: Option<Seq<char>>,
}

impl View for ServiceHealthStatus {
    type V = ServiceHealthView;

    open spec fn view(&self) -> ServiceHealthView {
        ServiceHealthView {
            service: self.service,
            ready: self.ready,
            last_error: match self.last_error {
                Some(error) => Some(error@),
                None => None,
            },
        }
    }
}

impl ServiceHealthStatus {
    /// The status for the result of one health check: ready where the check
    /// went through, else not ready, with the error of the check.
    pub fn from_check(service: Service, check: Result<(), String>) -> (status: Self)
        ensures
            status@ == (ServiceHealthView {
                service,
                ready: check is Ok,
                last_error: match check {
                    Ok(_) => None,
                    Err(error) => Some(error@),
                },
            }),
    {
        match check {
            Ok(_) => ServiceHealthStatus { service, ready: true, last_error: None },
            Err(error) => ServiceHealthStatus { service, ready: false, last_error: Some(error) },
        }
    }
}

/// The indexing backend a network is started with.
#[derive(Clone, Copy, Debug, PartialEq, Eq, Structural)]
pub enum Backend {
    Lightwalletd,
    Zaino,
    /// No indexing backend: the node and the faucet only.
    Absent,
}

impl Backend {
    /// The service that stands for this backend, if there is one.
    pub open spec fn service_view(self) -> Option<Service> {
        match self {
            Backend::Lightwalletd => Some(Service::Lightwalletd),
            Backend::Zaino => Some(Service::Zaino),
            Backend::Absent => None,
        }
    }

    pub fn service(&self) -> (service: Option<Service>)
        ensures
            service == self.service_view(),
    {
        match self {
            Backend::Lightwalletd => Some(Service::Lightwalletd),
            Backend::Zaino => Some(Service::Zaino),
            Backend::Absent => None,
        }
    }

    /// The backend that a command-line name selects.
    pub open spec fn named(name: Seq<char>) -> Option<Backend> {
        if name == "lwd"@ {
            Some(Backend::Lightwalletd)
        } else if name == "zaino"@ {
            Some(Backend::Zaino)
        } else if name == "none"@ {
            Some(Backend::Absent)
        } else {
            None
        }
    }

    /// Reads a backend name: `lwd`, `zaino` or `none`. Any other name is
    /// refused.
    pub fn parse(name: &str) -> (backend: Option<Backend>)
        ensures
            backend == Backend::named(name@),
    {
        if str_eq(name, "lwd") {
            Some(Backend::Lightwalletd)
        } else if str_eq(name, "zaino") {
            Some(Backend::Zaino)
        } else if str_eq(name, "none") {
            Some(Backend::Absent)
        } else {
            None
        }
    }
}

} // verus!
