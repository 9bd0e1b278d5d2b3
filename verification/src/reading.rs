//! One reading of the sensor, and the JSON payload that carries it.

use vstd::prelude::*;
use crate::decimal::{integer_text, push_integer};
use crate::json::number::{
    is_integer_token,
    is_number,
    is_number_token,
    lemma_integer_text_is_integer_token,
};
use crate::json::object::{
    lemma_open_object_push,
    member_head,
    members_text,
    object_text,
    open_object_text,
    push_member_head,
    Member,
};
use crate::json::text::{
    is_string_token,
    lemma_escaped_plain,
    lemma_quoted_is_string_token,
    push_quoted,
    quoted,
};

verus! {

/// The key of the site identifier.
pub const KEY_LOCATION: &'static str = "LocationId";

/// The key of the device identifier.
pub const KEY_DEVICE: &'static str = "DeviceId";

/// The key of the time of the reading.
pub const KEY_TIME: &'static str = "EpochTime";

/// The key of the temperature.
pub const KEY_TEMPERATURE: &'static str = "Temperature";

/// The key of the relative humidity.
pub const KEY_HUMIDITY: &'static str = "Humidity";

/// The token that stands for a measured value that is no finite number.
pub open spec fn null_text() -> Seq<char> {
    seq!['n', 'u', 'l', 'l']
}

/// Whether `t` can stand for a measured value in a payload: a number token, or
/// `null`.
pub open spec fn is_measurement_text(t: Seq<char>) -> bool {
    is_number_token(t) || t == null_text()
}

/// A measured value in the two notations that the station needs.
///
/// The value itself is a floating-point number, which this crate does not
/// compute with. A measurement holds its JSON notation, which goes into the
/// payload and is always a number token or `null`, and the notation in which
/// the operator is to see it, which is any text.
#[derive(Debug)]
pub struct Measurement {
    json: String,
    shown: String,
}

/// What a [`Measurement`] holds, as mathematical values.
pub struct MeasurementView {
    pub json: Seq<char>,
    pub shown: Seq<char>,
}

impl View for Measurement {
    type V = MeasurementView;

    closed spec fn view(&self) -> MeasurementView {
        MeasurementView { json: self.json@, shown: self.shown@ }
    }
}

impl Measurement {
    #[verifier::type_invariant]
    spec fn holds_a_token(self) -> bool {
        is_measurement_text(self.json@)
    }

    /// Takes the two notations of a measured value, if `json` is a number
    /// token or `null`.
    pub fn new(json: &str, shown: &str) -> (m: Option<Measurement>)
        ensures
            m is Some <==> is_measurement_text(json@),
            m matches Some(v) ==> v@ == (MeasurementView { json: json@, shown: shown@ }),
    {
        if is_number(json) || is_null(json) {
            Some(Measurement { json: json.to_owned(), shown: shown.to_owned() })
        } else {
            None
        }
    }

    /// The JSON notation of the value.
    pub fn json(&self) -> (t: &str)
        ensures
            t@ == self@.json,
            is_measurement_text(t@),
    {
        proof {
            use_type_invariant(self);
        }
        self.json.as_str()
    }

    /// The notation of the value for the operator.
    pub fn shown(&self) -> (t: &str)
        ensures
            t@ == self@.shown,
    {
        self.shown.as_str()
    }
}

/// Decides whether `text` spells `null`.
fn is_null(text: &str) -> (r: bool)
    ensures
        r == (text@ == null_text()),
{
    let r = text.unicode_len() == 4 && text.get_char(0) == 'n' && text.get_char(1) == 'u'
        && text.get_char(2) == 'l' && text.get_char(3) == 'l';
    assert(r == (text@ =~= null_text()));
    r
}

/// One reading with the identifiers it is reported under.
#[derive(Debug)]
pub struct PostData {
    /// The site the station stands at.
    pub location: String,
    /// The device that took the reading.
    pub device: String,
    /// Seconds since the Unix epoch at which the reading was taken.
    pub timestamp: i64,
    /// Degrees Celsius.
    pub temperature: Measurement,
    /// Relative humidity in percent.
    pub humidity: Measurement,
}

/// What a [`PostData`] holds, as mathematical values.
pub struct PostDataView {
    pub location: Seq<char>,
    pub device: Seq<char>,
    pub timestamp: int,
    /// The JSON notation of the temperature.
    pub temperature: Seq<char>,
    /// The JSON notation of the humidity.
    pub humidity: Seq<char>,
}

impl View for PostData {
    type V = PostDataView;

    open spec fn view(&self) -> PostDataView {
        PostDataView {
            location: self.location@,
            device: self.device@,
            timestamp: self.timestamp as int,
            temperature: self.temperature@.json,
            humidity: self.humidity@.json,
        }
    }
}

impl PostDataView {
    /// Whether the two measured values are what a [`Measurement`] can hold.
    pub open spec fn well_formed(self) -> bool {
        is_measurement_text(self.temperature) && is_measurement_text(self.humidity)
    }

    /// The five members of the payload, in the order in which they are
    /// written. The identifiers are strings, the time is an integer, the two
    /// measured values stand as they were given.
    pub open spec fn members(self) -> Seq<Member> {
        seq![
            Member { key: KEY_LOCATION@, value: quoted(self.location) },
            Member { key: KEY_DEVICE@, value: quoted(self.device) },
            Member { key: KEY_TIME@, value: integer_text(self.timestamp) },
            Member { key: KEY_TEMPERATURE@, value: self.temperature },
            Member { key: KEY_HUMIDITY@, value: self.humidity },
        ]
    }

    /// The payload: the object of these five members.
    pub open spec fn wire_text(self) -> Seq<char> {
        object_text(self.members())
    }
}

/// Every payload is one object of exactly five members. Their keys are
/// `LocationId`, `DeviceId`, `EpochTime`, `Temperature` and `Humidity`, in
/// this order; the first two values are string tokens, the third is an
/// integer token and no string token, and the last two are number tokens or
/// `null`.
pub proof fn lemma_payload_is_typed(reading: PostDataView)
    requires
        reading.well_formed(),
    ensures
        reading.wire_text() == object_text(reading.members()),
        reading.members().len() == 5,
        reading.members()[0].key == "LocationId"@,
        reading.members()[1].key == "DeviceId"@,
        reading.members()[2].key == "EpochTime"@,
        reading.members()[3].key == "Temperature"@,
        reading.members()[4].key == "Humidity"@,
        is_string_token(reading.members()[0].value),
        is_string_token(reading.members()[1].value),
        is_integer_token(reading.members()[2].value),
        !is_string_token(reading.members()[2].value),
        is_measurement_text(reading.members()[3].value),
        is_measurement_text(reading.members()[4].value),
{
    lemma_quoted_is_string_token(reading.location);
    lemma_quoted_is_string_token(reading.device);
    lemma_integer_text_is_integer_token(reading.timestamp);
}

/// The text that begins the payload, up to its first value.
proof fn lemma_head_location(none: Seq<Member>)
    requires
        none.len() == 0,
    ensures
        open_object_text(none) + member_head(true, KEY_LOCATION@) == "{\"LocationId\":"@,
{
    reveal_strlit("LocationId");
    reveal_strlit("{\"LocationId\":");
    lemma_escaped_plain(KEY_LOCATION@);
    assert(members_text(none) =~= Seq::<char>::empty());
    assert(open_object_text(none) + member_head(true, KEY_LOCATION@) =~= "{\"LocationId\":"@);
}

/// The text between the first value of the payload and the second.
proof fn lemma_head_device()
    ensures
        member_head(false, KEY_DEVICE@) == ",\"DeviceId\":"@,
{
    reveal_strlit("DeviceId");
    reveal_strlit(",\"DeviceId\":");
    lemma_escaped_plain(KEY_DEVICE@);
    assert(member_head(false, KEY_DEVICE@) =~= ",\"DeviceId\":"@);
}

/// The text between the second value of the payload and the third.
proof fn lemma_head_time()
    ensures
        member_head(false, KEY_TIME@) == ",\"EpochTime\":"@,
{
    reveal_strlit("EpochTime");
    reveal_strlit(",\"EpochTime\":");
    lemma_escaped_plain(KEY_TIME@);
    assert(member_head(false, KEY_TIME@) =~= ",\"EpochTime\":"@);
}

/// The text between the third value of the payload and the fourth.
proof fn lemma_head_temperature()
    ensures
        member_head(false, KEY_TEMPERATURE@) == ",\"Temperature\":"@,
{
    reveal_strlit("Temperature");
    reveal_strlit(",\"Temperature\":");
    lemma_escaped_plain(KEY_TEMPERATURE@);
    assert(member_head(false, KEY_TEMPERATURE@) =~= ",\"Temperature\":"@);
}

/// The text between the fourth value of the payload and the fifth.
proof fn lemma_head_humidity()
    ensures
        member_head(false, KEY_HUMIDITY@) == ",\"Humidity\":"@,
{
    reveal_strlit("Humidity");
    reveal_strlit(",\"Humidity\":");
    lemma_escaped_plain(KEY_HUMIDITY@);
    assert(member_head(false, KEY_HUMIDITY@) =~= ",\"Humidity\":"@);
}

/// The payload written out: the five keys stand in it letter for letter, with
/// nothing between the members but one comma.
pub proof fn lemma_payload_text(reading: PostDataView)
    ensures
        reading.wire_text() == "{\"LocationId\":"@ + quoted(reading.location)
            + ",\"DeviceId\":"@ + quoted(reading.device) + ",\"EpochTime\":"@ + integer_text(
            reading.timestamp,
        ) + ",\"Temperature\":"@ + reading.temperature + ",\"Humidity\":"@
            + reading.humidity + "}"@,
{
    let m = reading.members();
    let m0 = Seq::<Member>::empty();
    let m1 = m0.push(m[0]);
    let m2 = m1.push(m[1]);
    let m3 = m2.push(m[2]);
    let m4 = m3.push(m[3]);
    let m5 = m4.push(m[4]);
    lemma_open_object_push(m0, m[0]);
    lemma_open_object_push(m1, m[1]);
    lemma_open_object_push(m2, m[2]);
    lemma_open_object_push(m3, m[3]);
    lemma_open_object_push(m4, m[4]);
    lemma_head_location(m0);
    lemma_head_device();
    lemma_head_time();
    lemma_head_temperature();
    lemma_head_humidity();
    assert(m5 =~= m);
    assert(seq!['}'] =~= "}"@) by {
        reveal_strlit("}");
    }
}

impl PostData {
    /// Writes the reading as its payload.
    pub fn serialize(&self) -> (json: String)
        ensures
            json@ == self@.wire_text(),
    {
        let ghost m = self@.members();
        let ghost m0 = Seq::<Member>::empty();
        let ghost m1 = m0.push(m[0]);
        let ghost m2 = m1.push(m[1]);
        let ghost m3 = m2.push(m[2]);
        let ghost m4 = m3.push(m[3]);
        let ghost m5 = m4.push(m[4]);
        let mut json = String::new();
        json.append("{");
        assert(json@ == open_object_text(m0)) by {
            reveal_strlit("{");
            assert(json@ =~= seq!['{'] + Seq::<char>::empty());
        }
        push_member_head(&mut json, true, KEY_LOCATION);
        push_quoted(&mut json, self.location.as_str());
        proof {
            lemma_open_object_push(m0, m[0]);
        }
        push_member_head(&mut json, false, KEY_DEVICE);
        push_quoted(&mut json, self.device.as_str());
        proof {
            lemma_open_object_push(m1, m[1]);
        }
        push_member_head(&mut json, false, KEY_TIME);
        push_integer(&mut json, self.timestamp);
        proof {
            lemma_open_object_push(m2, m[2]);
        }
        push_member_head(&mut json, false, KEY_TEMPERATURE);
        json.append(self.temperature.json());
        proof {
            lemma_open_object_push(m3, m[3]);
        }
        push_member_head(&mut json, false, KEY_HUMIDITY);
        json.append(self.humidity.json());
        proof {
            lemma_open_object_push(m4, m[4]);
            assert(m5 =~= m);
        }
        json.append("}");
        proof {
            reveal_strlit("}");
        }
        json
    }
}

/// The line that shows a reading to the operator, each value as the
/// operator is to see it.
pub open spec fn reading_line_text(humidity: Seq<char>, temperature: Seq<char>) -> Seq<char> {
    "relative humidity="@ + humidity + "%; temperature="@ + temperature + "C"@
}

/// Makes the line that shows a reading to the operator.
pub fn reading_line(humidity: &str, temperature: &str) -> (line: String)
    ensures
        line@ == reading_line_text(humidity@, temperature@),
{
    let mut line = "relative humidity=".to_owned();
    line.append(humidity);
    line.append("%; temperature=");
    line.append(temperature);
    line.append("C");
    line
}

} // verus!
