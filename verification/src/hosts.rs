//! Capability-host state: one provider per feature, composed into a single
//! facade the sandbox imports from.
//!
//! Each provider keeps the plain-value state its decisions are made on —
//! which peripherals are bound, whether the socket exists — and decides
//! whether and how a capability call is served. The hardware effect itself
//! (toggling a pin, sending the datagram) is the caller's, performed exactly
//! when the decision allows it. The logging and time features forward
//! straight to the platform with no host-side decision, so no provider state
//! appears here for them; randomness keeps one decision — the shape of the
//! buffer the platform generator fills.

use crate::net_types::UdpMetadata;
use vstd::prelude::*;

verus! {

/// GPIO capability provider: a capsule may toggle one LED and wait on one
/// button, once the host has bound them.
pub struct ArielGpioHost {
    /// An output pin was handed to the host.
    pub led_bound: bool,
    /// An interrupt-enabled input pin was handed to the host.
    pub button_bound: bool,
}

impl ArielGpioHost {
    /// A provider with no peripherals bound yet.
    pub fn new() -> (h: ArielGpioHost)
        ensures
            !h.led_bound,
            !h.button_bound,
    {
        ArielGpioHost { led_bound: false, button_bound: false }
    }

    /// Whether a toggle of the LED can be served: only with a bound pin.
    pub fn toggle_led(&self) -> (r: Result<(), ()>)
        ensures
            r == (if self.led_bound {
                Ok::<(), ()>(())
            } else {
                Err::<(), ()>(())
            }),
    {
        if self.led_bound {
            Ok(())
        } else {
            Err(())
        }
    }

    /// Whether a wait for the button can begin: only with a bound pin.
    pub fn wait_for_button_low(&self) -> (r: Result<(), ()>)
        ensures
            r == (if self.button_bound {
                Ok::<(), ()>(())
            } else {
                Err::<(), ()>(())
            }),
    {
        if self.button_bound {
            Ok(())
        } else {
            Err(())
        }
    }
}

/// A datagram the UDP provider cleared for sending; the caller performs the
/// transmission.
pub struct UdpSendRequest {
    pub data: Vec<u8>,
    pub endpoint: UdpMetadata,
}

/// UDP capability provider: one socket, created by the host with fixed
/// buffers, then usable by the capsule.
pub struct ArielUDPHost {
    /// The socket exists: the host initialised it with its buffers.
    pub initialized: bool,
    /// Size of the transmit/receive buffers the socket was built with.
    pub buffer_size: usize,
    /// The port a successful bind recorded.
    pub bound_port: Option<u16>,
}

impl ArielUDPHost {
    /// A provider without a socket.
    pub fn new() -> (h: ArielUDPHost)
        ensures
            !h.initialized,
            h.buffer_size == 0,
            h.bound_port is None,
    {
        ArielUDPHost { initialized: false, buffer_size: 0, bound_port: None }
    }

    /// Records the socket the host created and the buffer size it was given.
    pub fn initialize_socket(&mut self, buffer_size: usize)
        ensures
            final(self).initialized,
            final(self).buffer_size == buffer_size,
            final(self).bound_port == old(self).bound_port,
    {
        self.initialized = true;
        self.buffer_size = buffer_size;
    }

    /// Records the outcome of binding the socket to a port. `outcome` is what
    /// the transport answered when the caller performed the bind; it is only
    /// consulted — and the port only recorded — when the socket exists, since
    /// without one the bind is refused before reaching the transport.
    pub fn bind(&mut self, port: u16, outcome: Result<(), ()>) -> (r: Result<(), ()>)
        ensures
            (!old(self).initialized ==> r == Err::<(), ()>(()) && *final(self) == *old(self)),
            (old(self).initialized && outcome is Err ==> r == Err::<(), ()>(()) && *final(self)
                == *old(self)),
            (old(self).initialized && outcome is Ok ==> r == Ok::<(), ()>(())
                && final(self).bound_port == Some(port)),
            final(self).initialized == old(self).initialized,
            final(self).buffer_size == old(self).buffer_size,
    {
        if self.initialized {
            match outcome {
                Ok(_) => {
                    self.bound_port = Some(port);
                    Ok(())
                },
                Err(_) => Err(()),
            }
        } else {
            Err(())
        }
    }

    /// Clears a datagram for sending; refused while the socket does not
    /// exist. The caller transmits the returned request.
    pub fn send(&self, data: Vec<u8>, endpoint: UdpMetadata) -> (r: Result<UdpSendRequest, ()>)
        ensures
            (self.initialized ==> (r matches Ok(req) && req.data == data && req.endpoint
                == endpoint)),
            (!self.initialized ==> r is Err),
    {
        if self.initialized {
            Ok(UdpSendRequest { data, endpoint })
        } else {
            Err(())
        }
    }

    /// Turns the outcome of one receive into what the capsule sees: nothing
    /// when no bytes were ready, the datagram's bytes (the buffer cut to the
    /// received length) with its addressing otherwise, and the transport's
    /// failure as an error. Refused while the socket does not exist.
    pub fn try_recv(&self, outcome: Result<(usize, UdpMetadata), ()>, buf: Vec<u8>) -> (r: Result<
        Option<(Vec<u8>, UdpMetadata)>,
        (),
    >)
        requires
            outcome matches Ok((n, _)) ==> n <= buf@.len(),
        ensures
            (!self.initialized ==> r is Err),
            (self.initialized ==> match outcome {
                Err(_) => r is Err,
                Ok((n, meta)) => {
                    if n == 0 {
                        r == Ok::<Option<(Vec<u8>, UdpMetadata)>, ()>(None)
                    } else {
                        r matches Ok(Some((data, m))) && data@ == buf@.take(n as int) && m == meta
                    }
                },
            }),
    {
        if !self.initialized {
            return Err(());
        }
        match outcome {
            Err(_) => Err(()),
            Ok((n, meta)) => {
                if n == 0 {
                    Ok(None)
                } else {
                    let mut data = buf;
                    data.truncate(n);
                    Ok(Some((data, meta)))
                }
            },
        }
    }
}

/// The capability facade the sandbox is bound against: one provider per
/// feature, so capabilities stay additive and independently testable. Owned
/// by the lifecycle manager's idle state between runs, which is what lets
/// capability handles survive a capsule swap.
pub struct ArielOSHost {
    pub gpio_host: ArielGpioHost,
    pub udp_host: ArielUDPHost,
    pub rng_host: ArielRNGHost,
}

impl ArielOSHost {
    /// A facade with nothing bound.
    pub fn new() -> (h: ArielOSHost)
        ensures
            !h.gpio_host.led_bound,
            !h.gpio_host.button_bound,
            !h.udp_host.initialized,
    {
        ArielOSHost {
            gpio_host: ArielGpioHost::new(),
            udp_host: ArielUDPHost::new(),
            rng_host: ArielRNGHost::new(),
        }
    }

    /// Hands the LED and button peripherals to the GPIO provider.
    pub fn bind_peris(&mut self)
        ensures
            final(self).gpio_host.led_bound,
            final(self).gpio_host.button_bound,
            final(self).udp_host == old(self).udp_host,
            final(self).rng_host == old(self).rng_host,
    {
        self.gpio_host.led_bound = true;
        self.gpio_host.button_bound = true;
    }

    /// Records the socket the host created for the UDP provider.
    pub fn initialize_socket(&mut self, buffer_size: usize)
        ensures
            final(self).udp_host.initialized,
            final(self).udp_host.buffer_size == buffer_size,
            final(self).gpio_host == old(self).gpio_host,
            final(self).rng_host == old(self).rng_host,
    {
        self.udp_host.initialize_socket(buffer_size);
    }

    /// Whether a toggle of the LED can be served.
    pub fn toggle_led(&self) -> (r: Result<(), ()>)
        ensures
            r == (if self.gpio_host.led_bound {
                Ok::<(), ()>(())
            } else {
                Err::<(), ()>(())
            }),
    {
        self.gpio_host.toggle_led()
    }

    /// Whether a wait for the button can begin.
    pub fn wait_for_button_low(&self) -> (r: Result<(), ()>)
        ensures
            r == (if self.gpio_host.button_bound {
                Ok::<(), ()>(())
            } else {
                Err::<(), ()>(())
            }),
    {
        self.gpio_host.wait_for_button_low()
    }

    /// Records the outcome of binding the capsule's socket to a port.
    pub fn bind(&mut self, port: u16, outcome: Result<(), ()>) -> (r: Result<(), ()>)
        ensures
            (!old(self).udp_host.initialized ==> r == Err::<(), ()>(()) && *final(self) == *old(
                self,
            )),
            (old(self).udp_host.initialized && outcome is Err
                ==> r == Err::<(), ()>(()) && *final(self) == *old(self)),
            (old(self).udp_host.initialized && outcome is Ok ==> r == Ok::<(), ()>(())
                && final(self).udp_host.bound_port == Some(port)),
            final(self).gpio_host == old(self).gpio_host,
            final(self).rng_host == old(self).rng_host,
    {
        self.udp_host.bind(port, outcome)
    }

    /// The zeroed buffer for one `random_bytes` call.
    pub fn random_bytes_buffer(&self, len: u32) -> (r: Vec<u8>)
        ensures
            r@.len() == len as nat,
            forall|i: int| 0 <= i < r@.len() ==> r@[i] == 0,
    {
        self.rng_host.random_bytes_buffer(len)
    }
}

/// Randomness capability provider. The platform's generator fills buffers in
/// place, so the host-side decision is the buffer's shape: a `random_bytes`
/// call gets a zeroed buffer of exactly the requested length for the
/// generator to fill.
#[derive(Debug, Clone, Copy, PartialEq, Eq, Structural)]
pub struct ArielRNGHost;

impl ArielRNGHost {
    /// A provider handle for the platform generator.
    pub fn new() -> (h: ArielRNGHost)
        ensures
            h == ArielRNGHost,
    {
        ArielRNGHost
    }

    /// The zeroed buffer for one `random_bytes` call: exactly the requested
    /// length, whatever the platform generator later writes into it.
    pub fn random_bytes_buffer(&self, len: u32) -> (r: Vec<u8>)
        ensures
            r@.len() == len as nat,
            forall|i: int| 0 <= i < r@.len() ==> r@[i] == 0,
    {
        let n = len as usize;
        let mut dest: Vec<u8> = Vec::new();
        let mut i: usize = 0;
        while i < n
            invariant
                i <= n,
                dest@.len() == i,
                forall|j: int| 0 <= j < i ==> dest@[j] == 0,
            decreases n - i,
        {
            dest.push(0);
            i = i + 1;
        }
        dest
    }
}

} // verus!
