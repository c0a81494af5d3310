//! Common RTP session addressing shared by the audio and video sessions.

use vstd::prelude::*;

verus! {

/// Addressing and naming of one RTP session.  IP addresses are carried as
/// their four octets.
#[derive(Clone, Debug)]
pub struct RtpSession {
    ip: [u8; 4],
    port: u16,
    payload_type: u8,
    name: Option<String>,
    enable_rtcp: bool,
    ssrc: Option<u32>,
    mcast_source_ip: Option<[u8; 4]>,
}

impl RtpSession {
    /// The destination IP address.
    pub closed spec fn spec_ip(&self) -> [u8; 4] {
        self.ip
    }

    /// The destination UDP port.
    pub closed spec fn spec_port(&self) -> u16 {
        self.port
    }

    /// The RTP payload type.
    pub closed spec fn spec_payload_type(&self) -> u8 {
        self.payload_type
    }

    /// The session name, if any.
    pub closed spec fn spec_name(&self) -> Option<Seq<char>> {
        match self.name {
            Some(n) => Some(n@),
            None => None,
        }
    }

    /// Whether RTCP is enabled.
    pub closed spec fn spec_enable_rtcp(&self) -> bool {
        self.enable_rtcp
    }

    /// The synchronization source identifier, if any.
    pub closed spec fn spec_ssrc(&self) -> Option<u32> {
        self.ssrc
    }

    /// The multicast source IP address, if any.
    pub closed spec fn spec_mcast_source_ip(&self) -> Option<[u8; 4]> {
        self.mcast_source_ip
    }

    /// Retrieves the IP address used by this RTP session.
    pub fn ip(&self) -> (r: [u8; 4])
        ensures
            r == self.spec_ip(),
    {
        self.ip
    }

    /// Retrieves the UDP destination port used by this RTP session.
    pub fn port(&self) -> (r: u16)
        ensures
            r == self.spec_port(),
    {
        self.port
    }

    /// Retrieves the payload type used by this RTP session.
    pub fn payload_type(&self) -> (r: u8)
        ensures
            r == self.spec_payload_type(),
    {
        self.payload_type
    }

    /// Retrieves the RTCP option of this RTP session.
    pub fn enable_rtcp(&self) -> (r: bool)
        ensures
            r == self.spec_enable_rtcp(),
    {
        self.enable_rtcp
    }

    /// Retrieves the synchronization source identifier (SSRC) used by this
    /// RTP session.
    pub fn ssrc(&self) -> (r: Option<u32>)
        ensures
            r == self.spec_ssrc(),
    {
        self.ssrc
    }

    /// Retrieves the multicast source IP address used by this RTP session.
    pub fn mcast_source_ip(&self) -> (r: Option<[u8; 4]>)
        ensures
            r == self.spec_mcast_source_ip(),
    {
        self.mcast_source_ip
    }

    /// Retrieves the name of this RTP session.
    pub fn name(&self) -> (r: Option<&str>)
        ensures
            match r {
                Some(n) => self.spec_name() == Some(n@),
                None => self.spec_name() is None,
            },
    {
        match &self.name {
            Some(n) => Some(n.as_str()),
            None => None,
        }
    }
}

/// The default session: the all-but-placeholder multicast address
/// `239.0.0.1`, everything else zero or unset.
impl Default for RtpSession {
    fn default() -> (r: Self)
        ensures
            r.spec_ip() == [239u8, 0u8, 0u8, 1u8],
            r.spec_port() == 0u16,
            r.spec_payload_type() == 0u8,
            r.spec_name() is None,
            !r.spec_enable_rtcp(),
            r.spec_ssrc() is None,
            r.spec_mcast_source_ip() is None,
    {
        RtpSession {
            ip: [239, 0, 0, 1],
            port: 0,
            payload_type: 0,
            name: None,
            enable_rtcp: false,
            ssrc: None,
            mcast_source_ip: None,
        }
    }
}

/// Builder for [`RtpSession`].  `ip`, `port`, `payload_type` and `name` are
/// mandatory; the rest default to disabled or unset.
pub struct RtpSessionBuilder {
    /// The destination IP address, once set.
    pub ip: Option<[u8; 4]>,
    /// The destination UDP port, once set.
    pub port: Option<u16>,
    /// The RTP payload type, once set.
    pub payload_type: Option<u8>,
    /// The session name, once set.
    pub name: Option<String>,
    /// Whether RTCP is enabled.
    pub enable_rtcp: bool,
    /// The synchronization source identifier, if any.
    pub ssrc: Option<u32>,
    /// The multicast source IP address, if any.
    pub mcast_source_ip: Option<[u8; 4]>,
}

impl Default for RtpSessionBuilder {
    /// A builder with every field unset.
    fn default() -> (r: Self)
        ensures
            r.ip is None,
            r.port is None,
            r.payload_type is None,
            r.name is None,
            r.enable_rtcp == false,
            r.ssrc is None,
            r.mcast_source_ip is None,
    {
        RtpSessionBuilder {
            ip: None,
            port: None,
            payload_type: None,
            name: None,
            enable_rtcp: false,
            ssrc: None,
            mcast_source_ip: None,
        }
    }
}

impl RtpSessionBuilder {
    /// Whether every mandatory field has been set.
    pub open spec fn spec_complete(&self) -> bool {
        &&& self.ip is Some
        &&& self.port is Some
        &&& self.payload_type is Some
        &&& self.name is Some
    }

    /// Set the destination IP address.
    pub fn ip(self, ip: [u8; 4]) -> (r: Self)
        ensures
            r == (RtpSessionBuilder { ip: Some(ip), ..self }),
    {
        RtpSessionBuilder { ip: Some(ip), ..self }
    }

    /// Set the destination UDP port.
    pub fn port(self, port: u16) -> (r: Self)
        ensures
            r == (RtpSessionBuilder { port: Some(port), ..self }),
    {
        RtpSessionBuilder { port: Some(port), ..self }
    }

    /// Set the RTP payload type.
    pub fn payload_type(self, payload_type: u8) -> (r: Self)
        ensures
            r == (RtpSessionBuilder { payload_type: Some(payload_type), ..self }),
    {
        RtpSessionBuilder { payload_type: Some(payload_type), ..self }
    }

    /// Set the session name.
    pub fn name(self, name: String) -> (r: Self)
        ensures
            r == (RtpSessionBuilder { name: Some(name), ..self }),
    {
        RtpSessionBuilder { name: Some(name), ..self }
    }

    /// Enable or disable RTCP.
    pub fn enable_rtcp(self, enable_rtcp: bool) -> (r: Self)
        ensures
            r == (RtpSessionBuilder { enable_rtcp, ..self }),
    {
        RtpSessionBuilder { enable_rtcp, ..self }
    }

    /// Set the synchronization source identifier.
    pub fn ssrc(self, ssrc: Option<u32>) -> (r: Self)
        ensures
            r == (RtpSessionBuilder { ssrc, ..self }),
    {
        RtpSessionBuilder { ssrc, ..self }
    }

    /// Set the multicast source IP address.
    pub fn mcast_source_ip(self, mcast_source_ip: Option<[u8; 4]>) -> (r: Self)
        ensures
            r == (RtpSessionBuilder { mcast_source_ip, ..self }),
    {
        RtpSessionBuilder { mcast_source_ip, ..self }
    }

    /// Assemble the session with exactly the values set; fails while a
    /// mandatory field is still unset.
    pub fn build(self) -> (r: Result<RtpSession, crate::error::SessionError>)
        ensures
            r is Ok <==> self.spec_complete(),
            r matches Ok(s) ==> {
                &&& (self.ip matches Some(x) && s.spec_ip() == x)
                &&& (self.port matches Some(x) && s.spec_port() == x)
                &&& (self.payload_type matches Some(x) && s.spec_payload_type() == x)
                &&& (self.name matches Some(n) && s.spec_name() == Some(n@))
                &&& s.spec_enable_rtcp() == self.enable_rtcp
                &&& s.spec_ssrc() == self.ssrc
                &&& s.spec_mcast_source_ip() == self.mcast_source_ip
            },
            r matches Err(e) ==> e == crate::error::SessionError::CreationFailure,
    {
        match (self.ip, self.port, self.payload_type, &self.name) {
            (Some(ip), Some(port), Some(payload_type), Some(_)) => {
                Ok(
                    RtpSession {
                        ip,
                        port,
                        payload_type,
                        name: self.name,
                        enable_rtcp: self.enable_rtcp,
                        ssrc: self.ssrc,
                        mcast_source_ip: self.mcast_source_ip,
                    },
                )
            },
            _ => Err(crate::error::SessionError::CreationFailure),
        }
    }
}

} // verus!
