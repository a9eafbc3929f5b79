//! Laws of arming and disarming.

use vstd::prelude::*;
use crate::config::{Config, Tolerance};
use crate::driver::{arm_writes, cfgr_word, disarm_writes, Controller};
use crate::error::{ArmError, TransmitError};
use crate::registers::{Cfgr, RegisterWrite};

verus! {

/// A bus that was armed and disarmed can be armed again, with the same or
/// another valid configuration.
///
/// Disarming leaves both lanes idle and the bus off. Arming again succeeds,
/// takes the new configuration, leaves both lanes idle, and writes what
/// arming a fresh driver writes: the configuration word, the interrupt
/// enables, and the enable bit last.
pub proof fn rearm_after_disarm(controller: Controller, first: Config, second: Config)
    requires
        controller.wf(),
        first.valid(),
        second.valid(),
    ensures
        ({
            let armed = controller.arm(first).0;
            let off = armed.disarm().0;
            let again = off.arm(second);
            &&& controller.arm(first).1 is Ok
            &&& armed.wf() && armed.armed && armed.config == first && armed.machine.is_idle()
            &&& off.wf() && !off.armed && off.machine.is_idle()
            &&& armed.disarm().1 == disarm_writes()
            &&& again.1 == Ok::<Seq<RegisterWrite>, ArmError>(arm_writes(second))
            &&& again.0.wf() && again.0.armed && again.0.config == second
                && again.0.machine.is_idle()
        }),
{
}

/// Disarming twice is disarming once.
pub proof fn disarm_is_idempotent(controller: Controller)
    ensures
        controller.disarm().0.disarm() == controller.disarm(),
{
}

/// Arming and disarming lose no frame that was received, and keep the last
/// fault.
pub proof fn arming_keeps_received(controller: Controller, config: Config)
    ensures
        controller.arm(config).0.machine.inbound == controller.machine.inbound,
        controller.arm(config).0.machine.last_error == controller.machine.last_error,
        controller.disarm().0.machine.inbound == controller.machine.inbound,
        controller.disarm().0.machine.last_error == controller.machine.last_error,
{
}

/// A transmit that is in flight when the bus is disarmed ends as aborted.
pub proof fn disarm_aborts_transmit(controller: Controller)
    requires
        controller.machine.tx is Some,
    ensures
        controller.disarm().0.machine.completion == Some(
            Err::<(), TransmitError>(TransmitError::Aborted),
        ),
        controller.disarm().0.machine.is_idle(),
{
}

/// The configuration word holds the configuration field by field: the
/// signal free time, the tolerance, the address mask and the listen flag are
/// those of the configuration, and of the policy bits only the one that
/// stops the reception on a bit rising error is set.
pub proof fn configuration_word_fields(config: Config)
    ensures
        ({
            let cfgr = Cfgr(cfgr_word(config));
            &&& cfgr.sft() == config.signal_free_time.code()
            &&& cfgr.rxtol() == (config.tolerance == Tolerance::Extended)
            &&& cfgr.brestp()
            &&& !cfgr.bregen()
            &&& !cfgr.lbpegen()
            &&& !cfgr.brdnogen()
            &&& cfgr.sftopt() == config.sft_from_request
            &&& cfgr.oar() == config.address_mask()
            &&& cfgr.lstn() == config.listen
        }),
{
    config.address_mask_fits();
    let s = config.signal_free_time.code() as u32;
    let t: u32 = if config.tolerance == Tolerance::Extended {
        1
    } else {
        0
    };
    let o: u32 = if config.sft_from_request {
        1
    } else {
        0
    };
    let a = config.address_mask() as u32;
    let l: u32 = if config.listen {
        1
    } else {
        0
    };
    let w = cfgr_word(config);
    assert(w == s + 8 * t + 16 + 256 * o + 65536 * a + 0x8000_0000 * l);
    assert(((w >> 0u32) & 0x07 == s) && (((w >> 3u32) & 1 != 0) == (t == 1)) && ((w >> 4u32) & 1
        != 0) && ((w >> 5u32) & 1 == 0) && ((w >> 6u32) & 1 == 0) && ((w >> 7u32) & 1 == 0) && (((w
        >> 8u32) & 1 != 0) == (o == 1)) && ((w >> 16u32) & 0x7fff == a) && (((w >> 31u32) & 1 != 0)
        == (l == 1))) by (bit_vector)
        requires
            s <= 7,
            t <= 1,
            o <= 1,
            a <= 0x7fff,
            l <= 1,
            w == s + 8 * t + 16 + 256 * o + 65536 * a + 0x8000_0000 * l,
    ;
}

} // verus!
