//! The engine attachment: configuration of the transport engine instance
//! that owns the pacer threads, and the decision logic of its initialization.

use vstd::prelude::*;
use crate::error::SessionError;
use crate::netdev::NetDev;

verus! {

/// Level of detail for logging messages.
#[derive(Copy, Clone, Debug, Default, PartialEq, Eq, Structural)]
pub enum LogLevel {
    Debug,
    Info,
    Notice,
    Warning,
    /// Default logging level, indicating an error.
    #[default]
    Error,
}

/// Receive-side scaling mode of the network device.
#[derive(Copy, Clone, Debug, Default, PartialEq, Eq, Structural)]
pub enum RssMode {
    /// Receive-side scaling disabled.
    #[default]
    Off,
    /// Scale on the L3 headers.
    L3,
    /// Scale on the L3 and L4 headers.
    L3L4,
}

/// IO virtual address translation mode.
#[derive(Copy, Clone, Debug, Default, PartialEq, Eq, Structural)]
pub enum IovaMode {
    /// Automatically determined address translation.
    #[default]
    Auto,
    /// Virtual address mode.
    Va,
    /// Physical address mode.
    Pa,
}

/// Witness that the engine attachment has been initialized; sessions are
/// created only against an initialized attachment.
#[derive(Copy, Clone, Debug, PartialEq, Eq, Structural)]
pub struct MtlHandle {
    granted: bool,
}

/// Configuration and handle of the engine attachment.  `init` validates the
/// configuration once; afterwards sessions may be created against it.
#[derive(Clone, Debug)]
pub struct Mtl {
    handle: Option<MtlHandle>,
    net_devs: Vec<NetDev>,
    dma_devs: Vec<String>,
    lcores: Option<String>,
    log_level: LogLevel,
    rss_mode: RssMode,
    iova_mode: IovaMode,
    flags: u64,
}

impl Mtl {
    /// Whether `init` has succeeded on this value.
    pub closed spec fn spec_initialized(&self) -> bool {
        self.handle is Some
    }

    /// The configured network devices.
    pub closed spec fn spec_net_devs(&self) -> Seq<NetDev> {
        self.net_devs@
    }

    /// Initialize the engine attachment with the provided configuration.
    ///
    /// Fails if this value has already been initialized, or if the number of
    /// network devices is zero or above eight.
    pub fn init(self) -> (r: Result<Self, SessionError>)
        ensures
            r is Ok <==> {
                &&& !self.spec_initialized()
                &&& 1 <= self.spec_net_devs().len() <= 8
            },
            r matches Ok(m) ==> {
                &&& m.spec_initialized()
                &&& m.spec_net_devs() == self.spec_net_devs()
            },
            r matches Err(e) ==> e == SessionError::CreationFailure,
    {
        if self.handle.is_some() {
            return Err(SessionError::CreationFailure);
        }
        let num_ports = self.net_devs.len();
        if num_ports > 8 || num_ports == 0 {
            return Err(SessionError::CreationFailure);
        }
        Ok(Mtl { handle: Some(MtlHandle { granted: true }), ..self })
    }

    /// Get a reference to the engine handle.
    pub fn handle(&self) -> (r: &Option<MtlHandle>)
        ensures
            r is Some <==> self.spec_initialized(),
    {
        &self.handle
    }

    /// Get a reference to the configured network devices.
    pub fn net_devs(&self) -> (r: &Vec<NetDev>)
        ensures
            r@ == self.spec_net_devs(),
    {
        &self.net_devs
    }
}

/// Builder for [`Mtl`].  The list of network devices is mandatory;
/// everything else has a default.
pub struct MtlBuilder {
    net_devs: Option<Vec<NetDev>>,
    dma_devs: Vec<String>,
    lcores: Option<String>,
    log_level: LogLevel,
    rss_mode: RssMode,
    iova_mode: IovaMode,
    flags: u64,
}

impl Default for MtlBuilder {
    /// A builder with the devices unset and every option at its default.
    fn default() -> (r: Self)
        ensures
            r.spec_complete() == false,
    {
        MtlBuilder {
            net_devs: None,
            dma_devs: Vec::new(),
            lcores: None,
            log_level: LogLevel::Error,
            rss_mode: RssMode::Off,
            iova_mode: IovaMode::Auto,
            flags: 0,
        }
    }
}

impl MtlBuilder {
    /// Whether every mandatory field has been set.
    pub closed spec fn spec_complete(&self) -> bool {
        self.net_devs is Some
    }

    /// The network devices set so far, if any.
    pub closed spec fn spec_net_devs(&self) -> Option<Seq<NetDev>> {
        match self.net_devs {
            Some(d) => Some(d@),
            None => None,
        }
    }

    /// Set the network devices.
    pub fn net_devs(self, net_devs: Vec<NetDev>) -> (r: Self)
        ensures
            r.spec_net_devs() == Some(net_devs@),
            r.spec_complete(),
    {
        MtlBuilder { net_devs: Some(net_devs), ..self }
    }

    /// Set the DMA devices.
    pub fn dma_devs(self, dma_devs: Vec<String>) -> Self {
        MtlBuilder { dma_devs, ..self }
    }

    /// Set the logical cores to pin the engine schedulers to.
    pub fn lcores(self, lcores: Option<String>) -> Self {
        MtlBuilder { lcores, ..self }
    }

    /// Set the logging level.
    pub fn log_level(self, log_level: LogLevel) -> Self {
        MtlBuilder { log_level, ..self }
    }

    /// Set the receive-side scaling mode.
    pub fn rss_mode(self, rss_mode: RssMode) -> Self {
        MtlBuilder { rss_mode, ..self }
    }

    /// Set the IO virtual address mode.
    pub fn iova_mode(self, iova_mode: IovaMode) -> Self {
        MtlBuilder { iova_mode, ..self }
    }

    /// Set the engine initialization flags.
    pub fn flags(self, flags: u64) -> Self {
        MtlBuilder { flags, ..self }
    }

    /// Assemble the (not yet initialized) engine attachment; fails while the
    /// network devices are still unset.
    pub fn build(self) -> (r: Result<Mtl, SessionError>)
        ensures
            r is Ok <==> self.spec_complete(),
            r matches Ok(m) ==> {
                &&& !m.spec_initialized()
                &&& Some(m.spec_net_devs()) == self.spec_net_devs()
            },
            r matches Err(e) ==> e == SessionError::CreationFailure,
    {
        match self.net_devs {
            Some(net_devs) => Ok(
                Mtl {
                    handle: None,
                    net_devs,
                    dma_devs: self.dma_devs,
                    lcores: self.lcores,
                    log_level: self.log_level,
                    rss_mode: self.rss_mode,
                    iova_mode: self.iova_mode,
                    flags: self.flags,
                },
            ),
            None => Err(SessionError::CreationFailure),
        }
    }
}

} // verus!
