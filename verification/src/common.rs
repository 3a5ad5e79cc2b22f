//! The configuration, the two sensor records that travel through the relay,
//! and the signal that stops a worker.

use crate::clock::unix_seconds;
use vstd::prelude::*;
use vstd::string::*;

verus! {

/// What one pipeline run is configured with. The relay reads it once, when the
/// pipeline is built, and never writes to it.
#[derive(Clone, Debug)]
pub struct ClientData {
    pub udp_port: u32,
    pub redis_url: String,
    pub verbose: bool,
    /// The identity for the backend's AUTH; empty where none is configured.
    pub redis_auth: String,
    /// The secret for the backend's AUTH; empty where none is configured.
    pub redis_auth_pwd: String,
}

/// The stop request of a worker's cancellation channel.
#[derive(Clone, Copy, Debug, PartialEq, Eq, Structural)]
pub enum KillSwitch {
    OFF,
    ON,
}

/// A JSON number of a datagram, read as a double and carried as the text that
/// stands for that double in the relayed record. The relay computes nothing
/// from it.
#[derive(Clone, Debug, PartialEq, Eq)]
pub struct Real {
    pub text: String,
}

/// A reading of the accelerometer and the gyroscope.
#[derive(Clone, Debug, PartialEq, Eq)]
pub struct MPU6050DataInner {
    pub source: String,
    pub frequency: i32,
    pub acc_x: Real,
    pub acc_y: Real,
    pub acc_z: Real,
    pub rot_x: Real,
    pub rot_y: Real,
    pub rot_z: Real,
    pub timestamp: Option<u64>,
}

/// A ranging measurement from `source`, to `destination` where one is named.
#[derive(Clone, Debug, PartialEq, Eq)]
pub struct UWBDataInner {
    pub source: String,
    pub destination: Option<String>,
    pub range: Real,
    pub timestamp: Option<u64>,
}

/// One sensor record. The wire carries no tag: which of the two it is follows
/// from the members it holds.
#[derive(Clone, Debug, PartialEq, Eq)]
pub enum JsonData {
    MPU6050Data(MPU6050DataInner),
    UWBData(UWBDataInner),
}

/// A datagram that is no text, or text that is no sensor record.
#[derive(Debug)]
pub struct ParseError;

/// A worker that could not be started.
#[derive(Debug)]
pub struct ProcessError;

/// The model of an inertial reading: texts as sequences of characters.
pub struct InertialModel {
    pub source: Seq<char>,
    pub frequency: i32,
    pub acc_x: Seq<char>,
    pub acc_y: Seq<char>,
    pub acc_z: Seq<char>,
    pub rot_x: Seq<char>,
    pub rot_y: Seq<char>,
    pub rot_z: Seq<char>,
    pub timestamp: Option<u64>,
}

/// The model of a ranging measurement.
pub struct RangingModel {
    pub source: Seq<char>,
    pub destination: Option<Seq<char>>,
    pub range: Seq<char>,
    pub timestamp: Option<u64>,
}

/// The model of a sensor record.
pub enum Envelope {
    Inertial(InertialModel),
    Ranging(RangingModel),
}

impl Envelope {
    /// The time of ingestion that the record carries.
    pub open spec fn timestamp(self) -> Option<u64> {
        match self {
            Envelope::Inertial(m) => m.timestamp,
            Envelope::Ranging(u) => u.timestamp,
        }
    }

    /// The record with `stamp` in place of its timestamp and all else as it was.
    pub open spec fn restamped(self, stamp: Option<u64>) -> Envelope {
        match self {
            Envelope::Inertial(m) => Envelope::Inertial(InertialModel { timestamp: stamp, ..m }),
            Envelope::Ranging(u) => Envelope::Ranging(RangingModel { timestamp: stamp, ..u }),
        }
    }

    /// The record as it leaves the ingestion worker when the clock read `clock`:
    /// stamped with the reading, or left as it was where the clock gave none.
    pub open spec fn stamped_by(self, clock: Option<u64>) -> Envelope {
        match clock {
            Some(t) => self.restamped(Some(t)),
            None => self,
        }
    }
}

impl View for Real {
    type V = Seq<char>;

    open spec fn view(&self) -> Seq<char> {
        self.text@
    }
}

impl View for MPU6050DataInner {
    type V = InertialModel;

    open spec fn view(&self) -> InertialModel {
        InertialModel {
            source: self.source@,
            frequency: self.frequency,
            acc_x: self.acc_x@,
            acc_y: self.acc_y@,
            acc_z: self.acc_z@,
            rot_x: self.rot_x@,
            rot_y: self.rot_y@,
            rot_z: self.rot_z@,
            timestamp: self.timestamp,
        }
    }
}

impl View for UWBDataInner {
    type V = RangingModel;

    open spec fn view(&self) -> RangingModel {
        RangingModel {
            source: self.source@,
            destination: match self.destination {
                Some(d) => Some(d@),
                None => None,
            },
            range: self.range@,
            timestamp: self.timestamp,
        }
    }
}

impl View for JsonData {
    type V = Envelope;

    open spec fn view(&self) -> Envelope {
        match self {
            JsonData::MPU6050Data(m) => Envelope::Inertial(m@),
            JsonData::UWBData(u) => Envelope::Ranging(u@),
        }
    }
}

/// Something that a stop request can be sent to.
pub trait Killable {
    fn kill(&self) {
    }
}

/// A record that carries the time of its ingestion.
pub trait Timestamp: Sized {
    /// The record with `timestamp` as its time of ingestion, all else as it was.
    spec fn stamped(&self, timestamp: u64) -> Self;

    fn set_timestamp(&mut self, timestamp: u64)
        ensures
            *final(self) == old(self).stamped(timestamp),
    ;

    /// Stamps the record with the clock's reading where there is one, and
    /// leaves it as it was where there is none.
    fn set_timestamp_from(&mut self, clock: Option<u64>)
        ensures
            clock matches Some(t) ==> *final(self) == old(self).stamped(t),
            clock is None ==> *final(self) == *old(self),
    {
        match clock {
            Some(t) => self.set_timestamp(t),
            None => {},
        }
    }

    /// Stamps the record with the system clock's current reading. Where the
    /// clock cannot be read the record stays as it was.
    fn set_timestamp_default(&mut self)
        ensures
            *final(self) == *old(self) || (exists|t: u64| *final(self) == old(self).stamped(t)),
    {
        let clock = unix_seconds();
        self.set_timestamp_from(clock);
    }
}

impl ClientData {
    pub fn new(
        udp_port: u32,
        redis_url: String,
        redis_auth: Option<String>,
        redis_auth_pwd: String,
        verbose: bool,
    ) -> (data: Self)
        ensures
            data.udp_port == udp_port,
            data.redis_url == redis_url,
            data.redis_auth_pwd == redis_auth_pwd,
            data.verbose == verbose,
            redis_auth matches Some(identity) ==> data.redis_auth == identity,
            redis_auth is None ==> data.redis_auth@ == Seq::<char>::empty(),
    {
        let identity = match redis_auth {
            Some(identity) => identity,
            None => String::new(),
        };
        ClientData { redis_url, redis_auth: identity, redis_auth_pwd, verbose, udp_port }
    }
}

impl Timestamp for MPU6050DataInner {
    open spec fn stamped(&self, timestamp: u64) -> Self {
        MPU6050DataInner { timestamp: Some(timestamp), ..*self }
    }

    fn set_timestamp(&mut self, timestamp: u64) {
        self.timestamp = Some(timestamp);
    }
}

impl Timestamp for UWBDataInner {
    open spec fn stamped(&self, timestamp: u64) -> Self {
        UWBDataInner { timestamp: Some(timestamp), ..*self }
    }

    fn set_timestamp(&mut self, timestamp: u64) {
        self.timestamp = Some(timestamp);
    }
}

impl JsonData {
    /// Stamps the record, whichever of the two it is, as `Timestamp::set_timestamp_from`
    /// does.
    pub fn stamp(&mut self, clock: Option<u64>)
        ensures
            final(self)@ == old(self)@.stamped_by(clock),
    {
        match self {
            JsonData::UWBData(u) => u.set_timestamp_from(clock),
            JsonData::MPU6050Data(m) => m.set_timestamp_from(clock),
        }
    }
}

impl ParseError {
    /// What the error says of itself.
    pub fn message(&self) -> (text: String)
        ensures
            text@ == "Failed to Parse String"@,
    {
        String::from_str("Failed to Parse String")
    }
}

impl ProcessError {
    /// What the error says of itself.
    pub fn message(&self) -> (text: String)
        ensures
            text@ == "Failed to Start Process"@,
    {
        String::from_str("Failed to Start Process")
    }
}

} // verus!
