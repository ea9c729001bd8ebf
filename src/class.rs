use vstd::prelude::*;

verus! {

/// The message classes, keyed by the class byte of a frame.
///
/// The class byte of a decoded header is kept raw: a byte that names none of
/// these classes is no decoding error.
#[derive(Debug, Clone, Copy, PartialEq, Eq, Structural)]
pub enum ClassField {
    /// Navigation results: position, speed, time, accuracy, heading, DOP, satellites used.
    NAV,
    /// Receiver manager messages: satellite status, RTC status.
    RXM,
    /// Information messages: printf-style messages, with ids such as error, warning, notice.
    INF,
    /// Ack/Nack messages: replies to configuration input messages.
    ACK,
    /// Configuration input messages: dynamic model, DOP mask, baud rate and so on.
    CFG,
    /// Monitoring messages: communication status, CPU load, stack usage, task status.
    MON,
    /// AssistNow aiding messages: ephemeris, almanac, other A-GPS data input.
    AID,
    /// Timing messages: time pulse output, time mark results.
    TIM,
    /// External sensor fusion messages: external sensor measurements and status.
    ESF,
}

/// The class byte of each class.
pub open spec fn class_byte(c: ClassField) -> u8 {
    match c {
        ClassField::NAV => 0x01,
        ClassField::RXM => 0x02,
        ClassField::INF => 0x04,
        ClassField::ACK => 0x05,
        ClassField::CFG => 0x06,
        ClassField::MON => 0x0A,
        ClassField::AID => 0x0B,
        ClassField::TIM => 0x0D,
        ClassField::ESF => 0x10,
    }
}

/// The class that a class byte names, if any.
pub open spec fn class_of(b: u8) -> Option<ClassField> {
    if b == 0x01 {
        Some(ClassField::NAV)
    } else if b == 0x02 {
        Some(ClassField::RXM)
    } else if b == 0x04 {
        Some(ClassField::INF)
    } else if b == 0x05 {
        Some(ClassField::ACK)
    } else if b == 0x06 {
        Some(ClassField::CFG)
    } else if b == 0x0A {
        Some(ClassField::MON)
    } else if b == 0x0B {
        Some(ClassField::AID)
    } else if b == 0x0D {
        Some(ClassField::TIM)
    } else if b == 0x10 {
        Some(ClassField::ESF)
    } else {
        None
    }
}

/// The category name of a class byte; "unknown" where it names no class.
pub open spec fn class_name(b: u8) -> Seq<char> {
    match class_of(b) {
        Some(ClassField::NAV) => "navigation"@,
        Some(ClassField::RXM) => "receiver-manager"@,
        Some(ClassField::INF) => "info"@,
        Some(ClassField::ACK) => "ack"@,
        Some(ClassField::CFG) => "config"@,
        Some(ClassField::MON) => "monitor"@,
        Some(ClassField::AID) => "aiding"@,
        Some(ClassField::TIM) => "timing"@,
        Some(ClassField::ESF) => "external-sensor-fusion"@,
        None => "unknown"@,
    }
}

impl ClassField {
    /// The class that `b` names, or `None` for a byte of no known class.
    pub fn from_byte(b: u8) -> (r: Option<ClassField>)
        ensures
            r == class_of(b),
    {
        match b {
            0x01 => Some(ClassField::NAV),
            0x02 => Some(ClassField::RXM),
            0x04 => Some(ClassField::INF),
            0x05 => Some(ClassField::ACK),
            0x06 => Some(ClassField::CFG),
            0x0A => Some(ClassField::MON),
            0x0B => Some(ClassField::AID),
            0x0D => Some(ClassField::TIM),
            0x10 => Some(ClassField::ESF),
            _ => None,
        }
    }

    /// The class byte of this class.
    pub fn byte(&self) -> (r: u8)
        ensures
            r == class_byte(*self),
    {
        match self {
            ClassField::NAV => 0x01,
            ClassField::RXM => 0x02,
            ClassField::INF => 0x04,
            ClassField::ACK => 0x05,
            ClassField::CFG => 0x06,
            ClassField::MON => 0x0A,
            ClassField::AID => 0x0B,
            ClassField::TIM => 0x0D,
            ClassField::ESF => 0x10,
        }
    }
}

/// The category name of a class byte, for diagnostics: "unknown" where the
/// byte names no class.
pub fn class_tag_name(b: u8) -> (r: &'static str)
    ensures
        r@ == class_name(b),
{
    match ClassField::from_byte(b) {
        Some(ClassField::NAV) => "navigation",
        Some(ClassField::RXM) => "receiver-manager",
        Some(ClassField::INF) => "info",
        Some(ClassField::ACK) => "ack",
        Some(ClassField::CFG) => "config",
        Some(ClassField::MON) => "monitor",
        Some(ClassField::AID) => "aiding",
        Some(ClassField::TIM) => "timing",
        Some(ClassField::ESF) => "external-sensor-fusion",
        None => "unknown",
    }
}

/// Reading a class byte back gives the class it came from.
pub proof fn lemma_class_byte_round_trip(c: ClassField)
    ensures
        class_of(class_byte(c)) == Some(c),
{
}

/// A byte that names a class is that class's byte.
pub proof fn lemma_class_of_inverse(b: u8)
    ensures
        class_of(b) matches Some(c) ==> class_byte(c) == b,
{
}

} // verus!
