//! The PHY, reached over MDIO through the MAC's MDIC register: register
//! numbers, and the values each operation writes to the PHY registers.
use vstd::prelude::*;

use crate::descriptor::bit32;
use crate::err::DError;
use crate::poll::Poll;

verus! {

/// PHY control register (PCTRL).
pub const PHY_CONTROL: u32 = 0;

/// PHY status register (PSTATUS).
pub const PHY_STATUS: u32 = 1;

/// The MDIO address of the internal PHY.
pub const PHY_ADDR: u32 = 1;

// PCTRL bits.
pub const PCTRL_RESET: u16 = 0x8000;
pub const PCTRL_SPEED_LSB: u16 = 0x2000;
pub const PCTRL_AUTO_NEGOTIATION_ENABLE: u16 = 0x1000;
pub const PCTRL_POWER_DOWN: u16 = 0x0800;
pub const PCTRL_RESTART_AUTO_NEGOTIATION: u16 = 0x0200;
pub const PCTRL_DUPLEX_MODE: u16 = 0x0100;
pub const PCTRL_SPEED_MSB: u16 = 0x0040;

// PSTATUS bits.
pub const PSTATUS_LINK_STATUS_BIT: u32 = 2;
pub const PSTATUS_AUTO_NEGOTIATION_COMPLETE_BIT: u32 = 5;

/// The PHY at its MDIO address.
#[derive(Debug, Clone, Copy, PartialEq, Eq)]
pub struct Phy {
    addr: u32,
}

impl Phy {
    pub closed spec fn address(self) -> u32 {
        self.addr
    }

    /// The internal PHY, at MDIO address 1.
    pub fn new() -> (r: Phy)
        ensures
            r.address() == PHY_ADDR,
    {
        Phy { addr: PHY_ADDR }
    }

    /// The MDIO address.
    pub fn addr(&self) -> (r: u32)
        ensures
            r == self.address(),
    {
        self.addr
    }

    /// PCTRL with power-down cleared, other bits kept.
    pub fn power_up(control: u16) -> (r: u16)
        ensures
            r == control & !PCTRL_POWER_DOWN,
    {
        control & !PCTRL_POWER_DOWN
    }

    /// PCTRL with auto-negotiation enabled and restarted, other bits kept.
    pub fn enable_auto_negotiation(control: u16) -> (r: u16)
        ensures
            r == control | PCTRL_AUTO_NEGOTIATION_ENABLE | PCTRL_RESTART_AUTO_NEGOTIATION,
    {
        control | PCTRL_AUTO_NEGOTIATION_ENABLE | PCTRL_RESTART_AUTO_NEGOTIATION
    }

    /// PCTRL with a PHY reset requested, other bits kept.
    pub fn reset_request(control: u16) -> (r: u16)
        ensures
            r == control | PCTRL_RESET,
    {
        control | PCTRL_RESET
    }

    /// PCTRL with the forced speed and duplex set, other bits kept. The
    /// speed takes two bits, MSB then LSB: 10 is 1000 Mb/s, 01 is 100 Mb/s,
    /// 00 is 10 Mb/s; 11 is reserved, so asking for both 1000 and 100 Mb/s
    /// is `InvalidParameter`.
    pub fn set_speed_and_duplex(
        control: u16,
        speed_1000: bool,
        speed_100: bool,
        full_duplex: bool,
    ) -> (r: Result<u16, DError>)
        ensures
            speed_1000 && speed_100 ==> r == Err::<u16, DError>(DError::InvalidParameter),
            !(speed_1000 && speed_100) ==> r is Ok,
            r matches Ok(v) ==> {
                &&& v & !(PCTRL_SPEED_MSB | PCTRL_SPEED_LSB | PCTRL_DUPLEX_MODE) == control & !(
                PCTRL_SPEED_MSB | PCTRL_SPEED_LSB | PCTRL_DUPLEX_MODE)
                &&& (v & PCTRL_SPEED_MSB != 0) == speed_1000
                &&& (v & PCTRL_SPEED_LSB != 0) == speed_100
                &&& (v & PCTRL_DUPLEX_MODE != 0) == full_duplex
            },
    {
        if speed_1000 && speed_100 {
            return Err(DError::InvalidParameter);
        }
        let c = control;
        let base = c & !(PCTRL_SPEED_MSB | PCTRL_SPEED_LSB | PCTRL_DUPLEX_MODE);
        let a: u16 = if speed_1000 { PCTRL_SPEED_MSB } else { 0 };
        let b: u16 = if speed_100 { PCTRL_SPEED_LSB } else { 0 };
        let d: u16 = if full_duplex { PCTRL_DUPLEX_MODE } else { 0 };
        let v = base | a | b | d;
        proof {
            assert(0x40u16 | 0x2000u16 | 0x100u16 == 0x2140u16) by (bit_vector);
            assert((a == 0u16 || a == 0x40u16) && (b == 0u16 || b == 0x2000u16) && (d == 0u16 || d
                == 0x100u16) ==> {
                &&& ((c & !0x2140u16) | a | b | d) & !0x2140u16 == c & !0x2140u16
                &&& (((c & !0x2140u16) | a | b | d) & 0x40u16 != 0) == (a != 0u16)
                &&& (((c & !0x2140u16) | a | b | d) & 0x2000u16 != 0) == (b != 0u16)
                &&& (((c & !0x2140u16) | a | b | d) & 0x100u16 != 0) == (d != 0u16)
            }) by (bit_vector);
        }
        Ok(v)
    }

    /// Whether PSTATUS reports auto-negotiation complete.
    pub fn is_auto_negotiation_complete(status: u16) -> (r: bool)
        ensures
            r == bit32(status as u32, PSTATUS_AUTO_NEGOTIATION_COMPLETE_BIT),
    {
        ((status as u32) >> PSTATUS_AUTO_NEGOTIATION_COMPLETE_BIT) & 1u32 == 1u32
    }

    /// Whether PSTATUS reports a valid link.
    pub fn is_link_up(status: u16) -> (r: bool)
        ensures
            r == bit32(status as u32, PSTATUS_LINK_STATUS_BIT),
    {
        ((status as u32) >> PSTATUS_LINK_STATUS_BIT) & 1u32 == 1u32
    }

    /// The poll that waits for auto-negotiation: 30 reads of PSTATUS,
    /// 100 ms apart (three seconds).
    pub fn auto_negotiation_poll() -> (r: Poll)
        ensures
            r.limit() == 30,
            r.interval_ms() == 100,
            r.tries() == 0,
    {
        Poll::new(30, 100)
    }
}

} // verus!
