//! Network device configuration consumed at engine initialization.

use vstd::prelude::*;

verus! {

/// Network protocol used by the device.
#[derive(Copy, Clone, Debug, Default, PartialEq, Eq, Structural)]
pub enum NetProto {
    /// Static IP configuration.
    #[default]
    Static,
    /// Dynamic Host Configuration Protocol.
    Dhcp,
}

/// Poll-mode driver used for packet processing.
#[derive(Copy, Clone, Debug, Default, PartialEq, Eq, Structural)]
pub enum PmdType {
    /// Data Plane Development Kit driver.
    #[default]
    DpdkPmd,
    /// DPDK with AF_XDP.
    DpdkAfXdp,
    /// DPDK with AF_PACKET.
    DpdkAfPacket,
    /// Kernel socket.
    KernelSocket,
    /// AF_XDP without DPDK.
    AfXdp,
}

/// Configuration of one network device.  IP addresses are carried as their
/// four octets.
#[derive(Clone, Debug)]
pub struct NetDev {
    port: String,
    net_proto: NetProto,
    pmd: PmdType,
    ip: Option<[u8; 4]>,
    netmask: Option<[u8; 4]>,
    gateway: Option<[u8; 4]>,
    tx_queues_cnt: u16,
    rx_queues_cnt: u16,
}

impl NetDev {
    /// The port identifier.
    pub closed spec fn spec_port(&self) -> Seq<char> {
        self.port@
    }

    /// The configured network protocol.
    pub closed spec fn spec_net_proto(&self) -> NetProto {
        self.net_proto
    }

    /// The configured poll-mode driver.
    pub closed spec fn spec_pmd(&self) -> PmdType {
        self.pmd
    }

    /// The configured IP address, if any.
    pub closed spec fn spec_ip(&self) -> Option<[u8; 4]> {
        self.ip
    }

    /// The configured netmask, if any.
    pub closed spec fn spec_netmask(&self) -> Option<[u8; 4]> {
        self.netmask
    }

    /// The configured gateway, if any.
    pub closed spec fn spec_gateway(&self) -> Option<[u8; 4]> {
        self.gateway
    }

    /// The configured transmit queue count.
    pub closed spec fn spec_tx_queues_cnt(&self) -> u16 {
        self.tx_queues_cnt
    }

    /// The configured receive queue count.
    pub closed spec fn spec_rx_queues_cnt(&self) -> u16 {
        self.rx_queues_cnt
    }

    /// Returns the port identifier.
    pub fn get_port(&self) -> (r: &str)
        ensures
            r@ == self.spec_port(),
    {
        self.port.as_str()
    }

    /// Returns the network protocol used by the device.
    pub fn get_net_proto(&self) -> (r: NetProto)
        ensures
            r == self.spec_net_proto(),
    {
        self.net_proto
    }

    /// Returns the PMD type used by the device.
    pub fn get_pmd(&self) -> (r: PmdType)
        ensures
            r == self.spec_pmd(),
    {
        self.pmd
    }

    /// Returns the IP address of the device, if set.
    pub fn get_ip(&self) -> (r: Option<[u8; 4]>)
        ensures
            r == self.spec_ip(),
    {
        self.ip
    }

    /// Returns the network mask of the device, if set.
    pub fn get_netmask(&self) -> (r: Option<[u8; 4]>)
        ensures
            r == self.spec_netmask(),
    {
        self.netmask
    }

    /// Returns the gateway IP address of the device, if set.
    pub fn get_gateway(&self) -> (r: Option<[u8; 4]>)
        ensures
            r == self.spec_gateway(),
    {
        self.gateway
    }

    /// Returns the number of transmit queues for the device.
    pub fn get_tx_queues_cnt(&self) -> (r: u16)
        ensures
            r == self.spec_tx_queues_cnt(),
    {
        self.tx_queues_cnt
    }

    /// Returns the number of receive queues for the device.
    pub fn get_rx_queues_cnt(&self) -> (r: u16)
        ensures
            r == self.spec_rx_queues_cnt(),
    {
        self.rx_queues_cnt
    }
}

/// Builder for [`NetDev`].  `port`, `net_proto`, `pmd` and the two queue
/// counts are mandatory; the addresses default to unset.
pub struct NetDevBuilder {
    /// The port identifier, once set.
    pub port: Option<String>,
    /// The network protocol, once set.
    pub net_proto: Option<NetProto>,
    /// The poll-mode driver, once set.
    pub pmd: Option<PmdType>,
    /// The IP address, if any.
    pub ip: Option<[u8; 4]>,
    /// The netmask, if any.
    pub netmask: Option<[u8; 4]>,
    /// The gateway, if any.
    pub gateway: Option<[u8; 4]>,
    /// The transmit queue count, once set.
    pub tx_queues_cnt: Option<u16>,
    /// The receive queue count, once set.
    pub rx_queues_cnt: Option<u16>,
}

impl Default for NetDevBuilder {
    /// A builder with every field unset.
    fn default() -> (r: Self)
        ensures
            r.port is None,
            r.net_proto is None,
            r.pmd is None,
            r.ip is None,
            r.netmask is None,
            r.gateway is None,
            r.tx_queues_cnt is None,
            r.rx_queues_cnt is None,
    {
        NetDevBuilder {
            port: None,
            net_proto: None,
            pmd: None,
            ip: None,
            netmask: None,
            gateway: None,
            tx_queues_cnt: None,
            rx_queues_cnt: None,
        }
    }
}

impl NetDevBuilder {
    /// Whether every mandatory field has been set.
    pub open spec fn spec_complete(&self) -> bool {
        &&& self.port is Some
        &&& self.net_proto is Some
        &&& self.pmd is Some
        &&& self.tx_queues_cnt is Some
        &&& self.rx_queues_cnt is Some
    }

    /// Set the port identifier.
    pub fn port(self, port: String) -> (r: Self)
        ensures
            r == (NetDevBuilder { port: Some(port), ..self }),
    {
        NetDevBuilder { port: Some(port), ..self }
    }

    /// Set the network protocol.
    pub fn net_proto(self, net_proto: NetProto) -> (r: Self)
        ensures
            r == (NetDevBuilder { net_proto: Some(net_proto), ..self }),
    {
        NetDevBuilder { net_proto: Some(net_proto), ..self }
    }

    /// Set the poll-mode driver.
    pub fn pmd(self, pmd: PmdType) -> (r: Self)
        ensures
            r == (NetDevBuilder { pmd: Some(pmd), ..self }),
    {
        NetDevBuilder { pmd: Some(pmd), ..self }
    }

    /// Set the IP address.
    pub fn ip(self, ip: Option<[u8; 4]>) -> (r: Self)
        ensures
            r == (NetDevBuilder { ip, ..self }),
    {
        NetDevBuilder { ip, ..self }
    }

    /// Set the netmask.
    pub fn netmask(self, netmask: Option<[u8; 4]>) -> (r: Self)
        ensures
            r == (NetDevBuilder { netmask, ..self }),
    {
        NetDevBuilder { netmask, ..self }
    }

    /// Set the gateway.
    pub fn gateway(self, gateway: Option<[u8; 4]>) -> (r: Self)
        ensures
            r == (NetDevBuilder { gateway, ..self }),
    {
        NetDevBuilder { gateway, ..self }
    }

    /// Set the transmit queue count.
    pub fn tx_queues_cnt(self, tx_queues_cnt: u16) -> (r: Self)
        ensures
            r == (NetDevBuilder { tx_queues_cnt: Some(tx_queues_cnt), ..self }),
    {
        NetDevBuilder { tx_queues_cnt: Some(tx_queues_cnt), ..self }
    }

    /// Set the receive queue count.
    pub fn rx_queues_cnt(self, rx_queues_cnt: u16) -> (r: Self)
        ensures
            r == (NetDevBuilder { rx_queues_cnt: Some(rx_queues_cnt), ..self }),
    {
        NetDevBuilder { rx_queues_cnt: Some(rx_queues_cnt), ..self }
    }

    /// Assemble the device configuration with exactly the values set;
    /// fails while a mandatory field is still unset.
    pub fn build(self) -> (r: Result<NetDev, crate::error::SessionError>)
        ensures
            r is Ok <==> self.spec_complete(),
            r matches Ok(d) ==> {
                &&& (self.port matches Some(p) && d.spec_port() == p@)
                &&& (self.net_proto matches Some(x) && d.spec_net_proto() == x)
                &&& (self.pmd matches Some(x) && d.spec_pmd() == x)
                &&& d.spec_ip() == self.ip
                &&& d.spec_netmask() == self.netmask
                &&& d.spec_gateway() == self.gateway
                &&& (self.tx_queues_cnt matches Some(x) && d.spec_tx_queues_cnt() == x)
                &&& (self.rx_queues_cnt matches Some(x) && d.spec_rx_queues_cnt() == x)
            },
            r matches Err(e) ==> e == crate::error::SessionError::CreationFailure,
    {
        match (self.port, self.net_proto, self.pmd, self.tx_queues_cnt, self.rx_queues_cnt) {
            (Some(port), Some(net_proto), Some(pmd), Some(tx_queues_cnt), Some(rx_queues_cnt)) => {
                Ok(
                    NetDev {
                        port,
                        net_proto,
                        pmd,
                        ip: self.ip,
                        netmask: self.netmask,
                        gateway: self.gateway,
                        tx_queues_cnt,
                        rx_queues_cnt,
                    },
                )
            },
            _ => Err(crate::error::SessionError::CreationFailure),
        }
    }
}

} // verus!
