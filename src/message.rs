//! Power-management message codes and their decoding.
use vstd::prelude::*;

verus! {

/// The system field of an error or message code: six bits at the top.
pub open spec fn system_field(x: u32) -> int {
    (x % 64) as int * 0x400_0000
}

/// The subsystem field of an error or message code: twelve bits above the
/// fourteen low ones.
pub open spec fn subsystem_field(x: u32) -> int {
    (x % 4096) as int * 0x4000
}

/// Places the low six bits of `x` in the system field of a code.
pub fn err_system(x: u32) -> (r: u32)
    ensures
        r == system_field(x),
{
    let r = (x & 0x3f) << 26u32;
    assert(((x & 0x3f) << 26u32) as int == (x % 64) as int * 0x400_0000) by (bit_vector);
    r
}

/// Places the low twelve bits of `x` in the subsystem field of a code.
pub fn err_sub(x: u32) -> (r: u32)
    ensures
        r == subsystem_field(x),
{
    let r = (x & 0xfff) << 14u32;
    assert(((x & 0xfff) << 14u32) as int == (x % 4096) as int * 0x4000) by (bit_vector);
    r
}

/// The system field of the I/O kit.
pub fn sys_iokit() -> (r: u32)
    ensures
        r == system_field(0x38),
        r == 0xe000_0000,
{
    err_system(0x38)
}

/// The subsystem field of the I/O kit's common messages.
pub fn sub_iokit_common() -> (r: u32)
    ensures
        r == subsystem_field(0),
        r == 0,
{
    err_sub(0)
}

/// The code of the I/O kit's common message number `message`.
pub open spec fn common_message_code(message: u32) -> u32 {
    0xe000_0000u32 | message
}

/// The code of the I/O kit's common message number `message`: the I/O kit's
/// system field, the common subsystem and the number.
pub fn iokit_common_msg(message: u32) -> (r: u32)
    ensures
        r == common_message_code(message),
        message < 0x4000 ==> r == 0xe000_0000 + message,
{
    let r = sys_iokit() | sub_iokit_common() | message;
    assert(0xe000_0000u32 | 0u32 | message == 0xe000_0000u32 | message) by (bit_vector);
    assert(message < 0x4000 ==> 0xe000_0000u32 | message == 0xe000_0000 + message) by (bit_vector);
    r
}

/// The system asks whether it may sleep; the answer may veto it.
pub const CAN_SYSTEM_SLEEP: u32 = 0xe000_0270;
/// The system will sleep; the message must be acknowledged.
pub const SYSTEM_WILL_SLEEP: u32 = 0xe000_0280;
/// A sleep was vetoed.
pub const SYSTEM_WILL_NOT_SLEEP: u32 = 0xe000_0290;
/// The system has powered on.
pub const SYSTEM_HAS_POWERED_ON: u32 = 0xe000_0300;
/// The system will power on; informational, it precedes the wake.
pub const SYSTEM_WILL_POWER_ON: u32 = 0xe000_0320;

/// The codes above are the common messages of their numbers.
pub proof fn lemma_message_codes()
    ensures
        CAN_SYSTEM_SLEEP == common_message_code(0x270),
        SYSTEM_WILL_SLEEP == common_message_code(0x280),
        SYSTEM_WILL_NOT_SLEEP == common_message_code(0x290),
        SYSTEM_HAS_POWERED_ON == common_message_code(0x300),
        SYSTEM_WILL_POWER_ON == common_message_code(0x320),
{
    assert(0xe000_0270u32 == 0xe000_0000u32 | 0x270u32) by (bit_vector);
    assert(0xe000_0280u32 == 0xe000_0000u32 | 0x280u32) by (bit_vector);
    assert(0xe000_0290u32 == 0xe000_0000u32 | 0x290u32) by (bit_vector);
    assert(0xe000_0300u32 == 0xe000_0000u32 | 0x300u32) by (bit_vector);
    assert(0xe000_0320u32 == 0xe000_0000u32 | 0x320u32) by (bit_vector);
}

/// A decoded power message.
#[derive(Debug, Clone, Copy, PartialEq, Eq, Structural)]
pub enum PowerMessage {
    /// The system asks whether it may sleep.
    CanSystemSleep,
    /// The system will sleep.
    SystemWillSleep,
    /// A sleep was vetoed.
    SystemWillNotSleep,
    /// The system will power on.
    SystemWillPowerOn,
    /// The system has powered on.
    SystemHasPoweredOn,
    /// A code outside the table.
    Other(u32),
}

/// The message that the code `message_type` stands for.
pub open spec fn decoded(message_type: u32) -> PowerMessage {
    if message_type == CAN_SYSTEM_SLEEP {
        PowerMessage::CanSystemSleep
    } else if message_type == SYSTEM_WILL_SLEEP {
        PowerMessage::SystemWillSleep
    } else if message_type == SYSTEM_WILL_NOT_SLEEP {
        PowerMessage::SystemWillNotSleep
    } else if message_type == SYSTEM_WILL_POWER_ON {
        PowerMessage::SystemWillPowerOn
    } else if message_type == SYSTEM_HAS_POWERED_ON {
        PowerMessage::SystemHasPoweredOn
    } else {
        PowerMessage::Other(message_type)
    }
}

/// Decodes a message code against the table of power messages.
pub fn decode(message_type: u32) -> (r: PowerMessage)
    ensures
        r == decoded(message_type),
{
    if message_type == CAN_SYSTEM_SLEEP {
        PowerMessage::CanSystemSleep
    } else if message_type == SYSTEM_WILL_SLEEP {
        PowerMessage::SystemWillSleep
    } else if message_type == SYSTEM_WILL_NOT_SLEEP {
        PowerMessage::SystemWillNotSleep
    } else if message_type == SYSTEM_WILL_POWER_ON {
        PowerMessage::SystemWillPowerOn
    } else if message_type == SYSTEM_HAS_POWERED_ON {
        PowerMessage::SystemHasPoweredOn
    } else {
        PowerMessage::Other(message_type)
    }
}

} // verus!
