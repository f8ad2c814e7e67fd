//! What is kept of a relay connection from one run to the next.

use crate::model::ManagerState;
use crate::relay::{Relay, RelayResource, RelayState};
use vstd::prelude::*;

verus! {

/// The address that is used when none has been kept.
pub open spec fn default_url() -> Seq<char> {
    "wss://registration-relay.beeper.com/api/v1/provider"@
}

/// The kept state of a relay connection.
#[derive(Debug, PartialEq, Eq)]
pub struct RelayConfig {
    /// The address of the relay.
    pub url: String,
    /// The credentials held when the state was kept.
    pub state: Option<RelayState>,
}

impl RelayConfig {
    /// What is to be kept of a relay resource as it is now.
    pub fn from_resource(resource: &RelayResource) -> (config: RelayConfig)
        ensures
            config.url == resource.url,
            config.state == resource.state,
    {
        let state = match &resource.state {
            Some(code) => Some(code.clone()),
            None => None,
        };
        RelayConfig { url: resource.url.clone(), state }
    }

    /// What is to be kept of a supervised relay connection as it is now.
    pub fn from_relay<W>(relay: &Relay<W>) -> (config: RelayConfig)
        ensures
            config.url == relay.held().url,
            config.state == relay.held().state,
    {
        Self::from_resource(relay.resource())
    }

    /// The relay resource to start from: the address and credentials that
    /// were kept, or the default address and no credentials when nothing was
    /// kept.
    pub fn into_resource(kept: Option<RelayConfig>) -> (resource: RelayResource)
        ensures
            match kept {
                Some(config) => resource == (RelayResource {
                    url: config.url,
                    state: config.state,
                }),
                None => resource.url@ == default_url() && resource.state is None,
            },
    {
        match kept {
            Some(config) => RelayResource { url: config.url, state: config.state },
            None => RelayResource {
                url: "wss://registration-relay.beeper.com/api/v1/provider".to_owned(),
                state: None,
            },
        }
    }

    /// A supervised relay connection that starts from what was kept.
    pub fn relay<W>(kept: Option<RelayConfig>) -> (relay: Relay<W>)
        ensures
            relay.wf(),
            relay@ == ManagerState::<W>::initial(RelayResource::policy(), false),
            match kept {
                Some(config) => relay.held() == (RelayResource {
                    url: config.url,
                    state: config.state,
                }),
                None => relay.held().url@ == default_url() && relay.held().state is None,
            },
    {
        let resource = Self::into_resource(kept);
        RelayResource::new(resource.url, resource.state)
    }
}

/// What a subscriber to the supervisor's notifications received.
#[derive(Clone, Copy, Debug, PartialEq, Eq, Structural)]
pub enum Notice {
    /// The resource was generated.
    Generated,
    /// Notifications were missed because the subscriber fell behind.
    Lagged,
    /// There will be no more notifications.
    Closed,
}

/// What the keeper of the state does about a notice.
#[derive(Clone, Copy, Debug, PartialEq, Eq, Structural)]
pub enum Persist {
    /// Write the state as it is now.
    Write,
    /// Do nothing and listen on.
    Skip,
    /// Stop listening.
    Stop,
}

/// Decides what the keeper of the state does about a notice: a generation is
/// written down while the connection still has an owner, missed notices are
/// put up with, and the keeper stops when notices end or no owner is left.
pub fn on_notice(notice: Notice, relay_owned: bool) -> (action: Persist)
    ensures
        action == match notice {
            Notice::Generated => if relay_owned {
                Persist::Write
            } else {
                Persist::Stop
            },
            Notice::Lagged => Persist::Skip,
            Notice::Closed => Persist::Stop,
        },
{
    match notice {
        Notice::Generated => if relay_owned {
            Persist::Write
        } else {
            Persist::Stop
        },
        Notice::Lagged => Persist::Skip,
        Notice::Closed => Persist::Stop,
    }
}

} // verus!
