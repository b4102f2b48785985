use vstd::prelude::*;

verus! {

/// Message class of an envelope; names the payload domain it carries.
/// Codes without a named variant are kept in `Unknown`.
#[derive(Clone, Copy, Debug, PartialEq, Eq, Structural)]
pub enum MsgClass {
    Unspecified,
    Telemetry,
    Command,
    Config,
    Engineering,
    Unknown(i32),
}

impl MsgClass {
    /// The numeric code of this value.
    pub open spec fn code(self) -> i32 {
        match self {
            MsgClass::Unspecified => 0,
            MsgClass::Telemetry => 1,
            MsgClass::Command => 2,
            MsgClass::Config => 3,
            MsgClass::Engineering => 4,
            MsgClass::Unknown(x) => x,
        }
    }

    /// The value that a numeric code stands for.
    pub open spec fn of_code(v: i32) -> Self {
        if v == 0 {
            MsgClass::Unspecified
        } else if v == 1 {
            MsgClass::Telemetry
        } else if v == 2 {
            MsgClass::Command
        } else if v == 3 {
            MsgClass::Config
        } else if v == 4 {
            MsgClass::Engineering
        } else {
            MsgClass::Unknown(v)
        }
    }

    /// An `Unknown` value holds only a code that has no named variant,
    /// as `from_i32` makes it.
    pub open spec fn wf(self) -> bool {
        match self {
            MsgClass::Unknown(x) => !(0 <= x < 5),
            _ => true,
        }
    }

    pub fn from_i32(v: i32) -> (r: Self)
        ensures
            r == Self::of_code(v),
            r.wf(),
            r.code() == v,
    {
        match v {
            0 => MsgClass::Unspecified,
            1 => MsgClass::Telemetry,
            2 => MsgClass::Command,
            3 => MsgClass::Config,
            4 => MsgClass::Engineering,
            x => MsgClass::Unknown(x),
        }
    }

    pub fn to_i32(&self) -> (r: i32)
        ensures
            r == self.code(),
    {
        match *self {
            MsgClass::Unspecified => 0,
            MsgClass::Telemetry => 1,
            MsgClass::Command => 2,
            MsgClass::Config => 3,
            MsgClass::Engineering => 4,
            MsgClass::Unknown(x) => x,
        }
    }

    /// Converting a well-formed value to its code and back gives the value.
    pub proof fn lemma_code_round_trip(self)
        requires
            self.wf(),
        ensures
            Self::of_code(self.code()) == self,
    {
    }
}

/// Delivery profile requested by the sender.
/// Codes without a named variant are kept in `Unknown`.
#[derive(Clone, Copy, Debug, PartialEq, Eq, Structural)]
pub enum DeliveryProfile {
    Unspecified,
    BestEffort,
    AtLeastOnce,
    OrderedReliable,
    CriticalExec,
    Unknown(i32),
}

impl DeliveryProfile {
    /// The numeric code of this value.
    pub open spec fn code(self) -> i32 {
        match self {
            DeliveryProfile::Unspecified => 0,
            DeliveryProfile::BestEffort => 1,
            DeliveryProfile::AtLeastOnce => 2,
            DeliveryProfile::OrderedReliable => 3,
            DeliveryProfile::CriticalExec => 4,
            DeliveryProfile::Unknown(x) => x,
        }
    }

    /// The value that a numeric code stands for.
    pub open spec fn of_code(v: i32) -> Self {
        if v == 0 {
            DeliveryProfile::Unspecified
        } else if v == 1 {
            DeliveryProfile::BestEffort
        } else if v == 2 {
            DeliveryProfile::AtLeastOnce
        } else if v == 3 {
            DeliveryProfile::OrderedReliable
        } else if v == 4 {
            DeliveryProfile::CriticalExec
        } else {
            DeliveryProfile::Unknown(v)
        }
    }

    /// An `Unknown` value holds only a code that has no named variant,
    /// as `from_i32` makes it.
    pub open spec fn wf(self) -> bool {
        match self {
            DeliveryProfile::Unknown(x) => !(0 <= x < 5),
            _ => true,
        }
    }

    pub fn from_i32(v: i32) -> (r: Self)
        ensures
            r == Self::of_code(v),
            r.wf(),
            r.code() == v,
    {
        match v {
            0 => DeliveryProfile::Unspecified,
            1 => DeliveryProfile::BestEffort,
            2 => DeliveryProfile::AtLeastOnce,
            3 => DeliveryProfile::OrderedReliable,
            4 => DeliveryProfile::CriticalExec,
            x => DeliveryProfile::Unknown(x),
        }
    }

    pub fn to_i32(&self) -> (r: i32)
        ensures
            r == self.code(),
    {
        match *self {
            DeliveryProfile::Unspecified => 0,
            DeliveryProfile::BestEffort => 1,
            DeliveryProfile::AtLeastOnce => 2,
            DeliveryProfile::OrderedReliable => 3,
            DeliveryProfile::CriticalExec => 4,
            DeliveryProfile::Unknown(x) => x,
        }
    }

    /// Converting a well-formed value to its code and back gives the value.
    pub proof fn lemma_code_round_trip(self)
        requires
            self.wf(),
        ensures
            Self::of_code(self.code()) == self,
    {
    }
}

/// Signature algorithm of the security block.
/// Codes without a named variant are kept in `Unknown`.
#[derive(Clone, Copy, Debug, PartialEq, Eq, Structural)]
pub enum SigAlg {
    Unspecified,
    Ed25519,
    Unknown(i32),
}

impl SigAlg {
    /// The numeric code of this value.
    pub open spec fn code(self) -> i32 {
        match self {
            SigAlg::Unspecified => 0,
            SigAlg::Ed25519 => 1,
            SigAlg::Unknown(x) => x,
        }
    }

    /// The value that a numeric code stands for.
    pub open spec fn of_code(v: i32) -> Self {
        if v == 0 {
            SigAlg::Unspecified
        } else if v == 1 {
            SigAlg::Ed25519
        } else {
            SigAlg::Unknown(v)
        }
    }

    /// An `Unknown` value holds only a code that has no named variant,
    /// as `from_i32` makes it.
    pub open spec fn wf(self) -> bool {
        match self {
            SigAlg::Unknown(x) => !(0 <= x < 2),
            _ => true,
        }
    }

    pub fn from_i32(v: i32) -> (r: Self)
        ensures
            r == Self::of_code(v),
            r.wf(),
            r.code() == v,
    {
        match v {
            0 => SigAlg::Unspecified,
            1 => SigAlg::Ed25519,
            x => SigAlg::Unknown(x),
        }
    }

    pub fn to_i32(&self) -> (r: i32)
        ensures
            r == self.code(),
    {
        match *self {
            SigAlg::Unspecified => 0,
            SigAlg::Ed25519 => 1,
            SigAlg::Unknown(x) => x,
        }
    }

    /// Converting a well-formed value to its code and back gives the value.
    pub proof fn lemma_code_round_trip(self)
        requires
            self.wf(),
        ensures
            Self::of_code(self.code()) == self,
    {
    }
}

/// Status carried by an acknowledgement.
/// Codes without a named variant are kept in `Unknown`.
#[derive(Clone, Copy, Debug, PartialEq, Eq, Structural)]
pub enum AckStatus {
    Unspecified,
    Received,
    Rejected,
    Unknown(i32),
}

impl AckStatus {
    /// The numeric code of this value.
    pub open spec fn code(self) -> i32 {
        match self {
            AckStatus::Unspecified => 0,
            AckStatus::Received => 1,
            AckStatus::Rejected => 2,
            AckStatus::Unknown(x) => x,
        }
    }

    /// The value that a numeric code stands for.
    pub open spec fn of_code(v: i32) -> Self {
        if v == 0 {
            AckStatus::Unspecified
        } else if v == 1 {
            AckStatus::Received
        } else if v == 2 {
            AckStatus::Rejected
        } else {
            AckStatus::Unknown(v)
        }
    }

    /// An `Unknown` value holds only a code that has no named variant,
    /// as `from_i32` makes it.
    pub open spec fn wf(self) -> bool {
        match self {
            AckStatus::Unknown(x) => !(0 <= x < 3),
            _ => true,
        }
    }

    pub fn from_i32(v: i32) -> (r: Self)
        ensures
            r == Self::of_code(v),
            r.wf(),
            r.code() == v,
    {
        match v {
            0 => AckStatus::Unspecified,
            1 => AckStatus::Received,
            2 => AckStatus::Rejected,
            x => AckStatus::Unknown(x),
        }
    }

    pub fn to_i32(&self) -> (r: i32)
        ensures
            r == self.code(),
    {
        match *self {
            AckStatus::Unspecified => 0,
            AckStatus::Received => 1,
            AckStatus::Rejected => 2,
            AckStatus::Unknown(x) => x,
        }
    }

    /// Converting a well-formed value to its code and back gives the value.
    pub proof fn lemma_code_round_trip(self)
        requires
            self.wf(),
        ensures
            Self::of_code(self.code()) == self,
    {
    }
}

/// Status carried by an operation result.
/// Codes without a named variant are kept in `Unknown`.
#[derive(Clone, Copy, Debug, PartialEq, Eq, Structural)]
pub enum ResultStatus {
    Unspecified,
    Completed,
    Applied,
    Rejected,
    Failed,
    Unknown(i32),
}

impl ResultStatus {
    /// The numeric code of this value.
    pub open spec fn code(self) -> i32 {
        match self {
            ResultStatus::Unspecified => 0,
            ResultStatus::Completed => 1,
            ResultStatus::Applied => 2,
            ResultStatus::Rejected => 3,
            ResultStatus::Failed => 4,
            ResultStatus::Unknown(x) => x,
        }
    }

    /// The value that a numeric code stands for.
    pub open spec fn of_code(v: i32) -> Self {
        if v == 0 {
            ResultStatus::Unspecified
        } else if v == 1 {
            ResultStatus::Completed
        } else if v == 2 {
            ResultStatus::Applied
        } else if v == 3 {
            ResultStatus::Rejected
        } else if v == 4 {
            ResultStatus::Failed
        } else {
            ResultStatus::Unknown(v)
        }
    }

    /// An `Unknown` value holds only a code that has no named variant,
    /// as `from_i32` makes it.
    pub open spec fn wf(self) -> bool {
        match self {
            ResultStatus::Unknown(x) => !(0 <= x < 5),
            _ => true,
        }
    }

    pub fn from_i32(v: i32) -> (r: Self)
        ensures
            r == Self::of_code(v),
            r.wf(),
            r.code() == v,
    {
        match v {
            0 => ResultStatus::Unspecified,
            1 => ResultStatus::Completed,
            2 => ResultStatus::Applied,
            3 => ResultStatus::Rejected,
            4 => ResultStatus::Failed,
            x => ResultStatus::Unknown(x),
        }
    }

    pub fn to_i32(&self) -> (r: i32)
        ensures
            r == self.code(),
    {
        match *self {
            ResultStatus::Unspecified => 0,
            ResultStatus::Completed => 1,
            ResultStatus::Applied => 2,
            ResultStatus::Rejected => 3,
            ResultStatus::Failed => 4,
            ResultStatus::Unknown(x) => x,
        }
    }

    /// Converting a well-formed value to its code and back gives the value.
    pub proof fn lemma_code_round_trip(self)
        requires
            self.wf(),
        ensures
            Self::of_code(self.code()) == self,
    {
    }
}

/// Why a device reported its death.
/// Codes without a named variant are kept in `Unknown`.
#[derive(Clone, Copy, Debug, PartialEq, Eq, Structural)]
pub enum DeathReason {
    Unspecified,
    GracefulShutdown,
    LostNetwork,
    WatchdogReset,
    FatalFault,
    Unknown(i32),
}

impl DeathReason {
    /// The numeric code of this value.
    pub open spec fn code(self) -> i32 {
        match self {
            DeathReason::Unspecified => 0,
            DeathReason::GracefulShutdown => 1,
            DeathReason::LostNetwork => 2,
            DeathReason::WatchdogReset => 3,
            DeathReason::FatalFault => 4,
            DeathReason::Unknown(x) => x,
        }
    }

    /// The value that a numeric code stands for.
    pub open spec fn of_code(v: i32) -> Self {
        if v == 0 {
            DeathReason::Unspecified
        } else if v == 1 {
            DeathReason::GracefulShutdown
        } else if v == 2 {
            DeathReason::LostNetwork
        } else if v == 3 {
            DeathReason::WatchdogReset
        } else if v == 4 {
            DeathReason::FatalFault
        } else {
            DeathReason::Unknown(v)
        }
    }

    /// An `Unknown` value holds only a code that has no named variant,
    /// as `from_i32` makes it.
    pub open spec fn wf(self) -> bool {
        match self {
            DeathReason::Unknown(x) => !(0 <= x < 5),
            _ => true,
        }
    }

    pub fn from_i32(v: i32) -> (r: Self)
        ensures
            r == Self::of_code(v),
            r.wf(),
            r.code() == v,
    {
        match v {
            0 => DeathReason::Unspecified,
            1 => DeathReason::GracefulShutdown,
            2 => DeathReason::LostNetwork,
            3 => DeathReason::WatchdogReset,
            4 => DeathReason::FatalFault,
            x => DeathReason::Unknown(x),
        }
    }

    pub fn to_i32(&self) -> (r: i32)
        ensures
            r == self.code(),
    {
        match *self {
            DeathReason::Unspecified => 0,
            DeathReason::GracefulShutdown => 1,
            DeathReason::LostNetwork => 2,
            DeathReason::WatchdogReset => 3,
            DeathReason::FatalFault => 4,
            DeathReason::Unknown(x) => x,
        }
    }

    /// Converting a well-formed value to its code and back gives the value.
    pub proof fn lemma_code_round_trip(self)
        requires
            self.wf(),
        ensures
            Self::of_code(self.code()) == self,
    {
    }
}

/// Health reported in a heartbeat.
/// Codes without a named variant are kept in `Unknown`.
#[derive(Clone, Copy, Debug, PartialEq, Eq, Structural)]
pub enum Health {
    Unspecified,
    Healthy,
    Degraded,
    Faulted,
    Unknown(i32),
}

impl Health {
    /// The numeric code of this value.
    pub open spec fn code(self) -> i32 {
        match self {
            Health::Unspecified => 0,
            Health::Healthy => 1,
            Health::Degraded => 2,
            Health::Faulted => 3,
            Health::Unknown(x) => x,
        }
    }

    /// The value that a numeric code stands for.
    pub open spec fn of_code(v: i32) -> Self {
        if v == 0 {
            Health::Unspecified
        } else if v == 1 {
            Health::Healthy
        } else if v == 2 {
            Health::Degraded
        } else if v == 3 {
            Health::Faulted
        } else {
            Health::Unknown(v)
        }
    }

    /// An `Unknown` value holds only a code that has no named variant,
    /// as `from_i32` makes it.
    pub open spec fn wf(self) -> bool {
        match self {
            Health::Unknown(x) => !(0 <= x < 4),
            _ => true,
        }
    }

    pub fn from_i32(v: i32) -> (r: Self)
        ensures
            r == Self::of_code(v),
            r.wf(),
            r.code() == v,
    {
        match v {
            0 => Health::Unspecified,
            1 => Health::Healthy,
            2 => Health::Degraded,
            3 => Health::Faulted,
            x => Health::Unknown(x),
        }
    }

    pub fn to_i32(&self) -> (r: i32)
        ensures
            r == self.code(),
    {
        match *self {
            Health::Unspecified => 0,
            Health::Healthy => 1,
            Health::Degraded => 2,
            Health::Faulted => 3,
            Health::Unknown(x) => x,
        }
    }

    /// Converting a well-formed value to its code and back gives the value.
    pub proof fn lemma_code_round_trip(self)
        requires
            self.wf(),
        ensures
            Self::of_code(self.code()) == self,
    {
    }
}

/// Quality of a state item.
/// Codes without a named variant are kept in `Unknown`.
#[derive(Clone, Copy, Debug, PartialEq, Eq, Structural)]
pub enum Quality {
    Unspecified,
    Good,
    Uncertain,
    Bad,
    Unknown(i32),
}

impl Quality {
    /// The numeric code of this value.
    pub open spec fn code(self) -> i32 {
        match self {
            Quality::Unspecified => 0,
            Quality::Good => 1,
            Quality::Uncertain => 2,
            Quality::Bad => 3,
            Quality::Unknown(x) => x,
        }
    }

    /// The value that a numeric code stands for.
    pub open spec fn of_code(v: i32) -> Self {
        if v == 0 {
            Quality::Unspecified
        } else if v == 1 {
            Quality::Good
        } else if v == 2 {
            Quality::Uncertain
        } else if v == 3 {
            Quality::Bad
        } else {
            Quality::Unknown(v)
        }
    }

    /// An `Unknown` value holds only a code that has no named variant,
    /// as `from_i32` makes it.
    pub open spec fn wf(self) -> bool {
        match self {
            Quality::Unknown(x) => !(0 <= x < 4),
            _ => true,
        }
    }

    pub fn from_i32(v: i32) -> (r: Self)
        ensures
            r == Self::of_code(v),
            r.wf(),
            r.code() == v,
    {
        match v {
            0 => Quality::Unspecified,
            1 => Quality::Good,
            2 => Quality::Uncertain,
            3 => Quality::Bad,
            x => Quality::Unknown(x),
        }
    }

    pub fn to_i32(&self) -> (r: i32)
        ensures
            r == self.code(),
    {
        match *self {
            Quality::Unspecified => 0,
            Quality::Good => 1,
            Quality::Uncertain => 2,
            Quality::Bad => 3,
            Quality::Unknown(x) => x,
        }
    }

    /// Converting a well-formed value to its code and back gives the value.
    pub proof fn lemma_code_round_trip(self)
        requires
            self.wf(),
        ensures
            Self::of_code(self.code()) == self,
    {
    }
}

/// Severity of an alarm.
/// Codes without a named variant are kept in `Unknown`.
#[derive(Clone, Copy, Debug, PartialEq, Eq, Structural)]
pub enum AlarmSeverity {
    Unspecified,
    Info,
    Warning,
    Critical,
    Unknown(i32),
}

impl AlarmSeverity {
    /// The numeric code of this value.
    pub open spec fn code(self) -> i32 {
        match self {
            AlarmSeverity::Unspecified => 0,
            AlarmSeverity::Info => 1,
            AlarmSeverity::Warning => 2,
            AlarmSeverity::Critical => 3,
            AlarmSeverity::Unknown(x) => x,
        }
    }

    /// The value that a numeric code stands for.
    pub open spec fn of_code(v: i32) -> Self {
        if v == 0 {
            AlarmSeverity::Unspecified
        } else if v == 1 {
            AlarmSeverity::Info
        } else if v == 2 {
            AlarmSeverity::Warning
        } else if v == 3 {
            AlarmSeverity::Critical
        } else {
            AlarmSeverity::Unknown(v)
        }
    }

    /// An `Unknown` value holds only a code that has no named variant,
    /// as `from_i32` makes it.
    pub open spec fn wf(self) -> bool {
        match self {
            AlarmSeverity::Unknown(x) => !(0 <= x < 4),
            _ => true,
        }
    }

    pub fn from_i32(v: i32) -> (r: Self)
        ensures
            r == Self::of_code(v),
            r.wf(),
            r.code() == v,
    {
        match v {
            0 => AlarmSeverity::Unspecified,
            1 => AlarmSeverity::Info,
            2 => AlarmSeverity::Warning,
            3 => AlarmSeverity::Critical,
            x => AlarmSeverity::Unknown(x),
        }
    }

    pub fn to_i32(&self) -> (r: i32)
        ensures
            r == self.code(),
    {
        match *self {
            AlarmSeverity::Unspecified => 0,
            AlarmSeverity::Info => 1,
            AlarmSeverity::Warning => 2,
            AlarmSeverity::Critical => 3,
            AlarmSeverity::Unknown(x) => x,
        }
    }

    /// Converting a well-formed value to its code and back gives the value.
    pub proof fn lemma_code_round_trip(self)
        requires
            self.wf(),
        ensures
            Self::of_code(self.code()) == self,
    {
    }
}

/// Kind of an observation.
/// Codes without a named variant are kept in `Unknown`.
#[derive(Clone, Copy, Debug, PartialEq, Eq, Structural)]
pub enum ObservationType {
    Unspecified,
    Threat,
    Anomaly,
    Compliance,
    Unknown(i32),
}

impl ObservationType {
    /// The numeric code of this value.
    pub open spec fn code(self) -> i32 {
        match self {
            ObservationType::Unspecified => 0,
            ObservationType::Threat => 1,
            ObservationType::Anomaly => 2,
            ObservationType::Compliance => 3,
            ObservationType::Unknown(x) => x,
        }
    }

    /// The value that a numeric code stands for.
    pub open spec fn of_code(v: i32) -> Self {
        if v == 0 {
            ObservationType::Unspecified
        } else if v == 1 {
            ObservationType::Threat
        } else if v == 2 {
            ObservationType::Anomaly
        } else if v == 3 {
            ObservationType::Compliance
        } else {
            ObservationType::Unknown(v)
        }
    }

    /// An `Unknown` value holds only a code that has no named variant,
    /// as `from_i32` makes it.
    pub open spec fn wf(self) -> bool {
        match self {
            ObservationType::Unknown(x) => !(0 <= x < 4),
            _ => true,
        }
    }

    pub fn from_i32(v: i32) -> (r: Self)
        ensures
            r == Self::of_code(v),
            r.wf(),
            r.code() == v,
    {
        match v {
            0 => ObservationType::Unspecified,
            1 => ObservationType::Threat,
            2 => ObservationType::Anomaly,
            3 => ObservationType::Compliance,
            x => ObservationType::Unknown(x),
        }
    }

    pub fn to_i32(&self) -> (r: i32)
        ensures
            r == self.code(),
    {
        match *self {
            ObservationType::Unspecified => 0,
            ObservationType::Threat => 1,
            ObservationType::Anomaly => 2,
            ObservationType::Compliance => 3,
            ObservationType::Unknown(x) => x,
        }
    }

    /// Converting a well-formed value to its code and back gives the value.
    pub proof fn lemma_code_round_trip(self)
        requires
            self.wf(),
        ensures
            Self::of_code(self.code()) == self,
    {
    }
}

} // verus!
