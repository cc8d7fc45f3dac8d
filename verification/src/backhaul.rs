use vstd::prelude::*;

verus! {

/// The configuration a backhaul session is opened with: broker endpoint,
/// the node's own link-layer address as text (its per-node topic), and the
/// segment identifier (the shared broadcast topic).
pub struct BackhaulConfig {
    pub broker_addr: Seq<char>,
    pub broker_port: u16,
    pub eth_mac_addr: Seq<char>,
    pub eth_segment_addr: Seq<char>,
}

/// Collects the parameters of the backhaul session before it is opened.
pub struct BackhaulClientBuilder {
    broker_addr: String,
    broker_port: u16,
    eth_mac_addr: String,
    eth_segment_addr: String,
}

impl View for BackhaulClientBuilder {
    type V = BackhaulConfig;

    closed spec fn view(&self) -> BackhaulConfig {
        BackhaulConfig {
            broker_addr: self.broker_addr@,
            broker_port: self.broker_port,
            eth_mac_addr: self.eth_mac_addr@,
            eth_segment_addr: self.eth_segment_addr@,
        }
    }
}

impl BackhaulClientBuilder {
    pub fn new(
        broker_addr: String,
        broker_port: u16,
        eth_mac_addr: String,
        eth_segment_addr: String,
    ) -> (r: BackhaulClientBuilder)
        ensures
            r@ == (BackhaulConfig {
                broker_addr: broker_addr@,
                broker_port,
                eth_mac_addr: eth_mac_addr@,
                eth_segment_addr: eth_segment_addr@,
            }),
    {
        BackhaulClientBuilder {
            broker_addr,
            broker_port,
            eth_mac_addr,
            eth_segment_addr,
        }
    }

    /// The client carries exactly the builder's configuration.
    pub fn build(&self) -> (r: BackhaulClient)
        ensures
            r@ == self@,
    {
        BackhaulClient {
            broker_addr: self.broker_addr.clone(),
            broker_port: self.broker_port,
            eth_mac_addr: self.eth_mac_addr.clone(),
            eth_segment_addr: self.eth_segment_addr.clone(),
        }
    }
}

/// Identifies one backhaul session: which broker to reach and which two
/// topics — the shared segment topic and the per-node topic — to subscribe
/// to. Opening the session itself is the messaging collaborator's work.
pub struct BackhaulClient {
    broker_addr: String,
    broker_port: u16,
    eth_mac_addr: String,
    eth_segment_addr: String,
}

impl View for BackhaulClient {
    type V = BackhaulConfig;

    closed spec fn view(&self) -> BackhaulConfig {
        BackhaulConfig {
            broker_addr: self.broker_addr@,
            broker_port: self.broker_port,
            eth_mac_addr: self.eth_mac_addr@,
            eth_segment_addr: self.eth_segment_addr@,
        }
    }
}

impl BackhaulClient {
    pub fn broker_addr(&self) -> (r: &String)
        ensures
            r@ == self@.broker_addr,
    {
        &self.broker_addr
    }

    pub fn broker_port(&self) -> (r: u16)
        ensures
            r == self@.broker_port,
    {
        self.broker_port
    }

    /// The per-node topic: the node's own link-layer address as text.
    pub fn eth_mac_addr(&self) -> (r: &String)
        ensures
            r@ == self@.eth_mac_addr,
    {
        &self.eth_mac_addr
    }

    /// The shared broadcast topic of the segment.
    pub fn eth_segment_addr(&self) -> (r: &String)
        ensures
            r@ == self@.eth_segment_addr,
    {
        &self.eth_segment_addr
    }
}

} // verus!
