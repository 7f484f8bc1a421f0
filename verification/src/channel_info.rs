//! Naming heuristics for measurement channels: a channel imported from the
//! CNR station feed carries only a raw measurement-type tag, from which a
//! display name and a measure unit are guessed by prefix.

use vstd::prelude::*;
use vstd::string::StrSliceExecFns;

verus! {

/// `p` is a prefix of `s`.
pub open spec fn spec_has_prefix(s: Seq<char>, p: Seq<char>) -> bool {
    p.len() <= s.len() && s.subrange(0, p.len() as int) == p
}

/// Whether `prefix` starts the string `s`, comparing character by
/// character.
fn has_prefix(s: &str, prefix: &str) -> (r: bool)
    ensures
        r == spec_has_prefix(s@, prefix@),
{
    let n = prefix.unicode_len();
    if n > s.unicode_len() {
        return false;
    }
    let mut i: usize = 0;
    while i < n
        invariant
            i <= n,
            n == prefix@.len(),
            n <= s@.len(),
            forall|j: int| 0 <= j < i ==> s@[j] == prefix@[j],
        decreases n - i,
    {
        if s.get_char(i) != prefix.get_char(i) {
            proof {
                assert(s@.subrange(0, n as int)[i as int] != prefix@[i as int]);
            }
            return false;
        }
        i = i + 1;
    }
    proof {
        assert(s@.subrange(0, n as int) =~= prefix@);
    }
    true
}

/// What was guessed about a channel: its measure unit, and a display name
/// where the tag was recognized.
pub struct ChannelDetectedData {
    pub measure_unit: String,
    pub name: Option<String>,
}

/// The guess, over sequences of characters: temperature tags (further
/// split into surface and dew-point readings), condensation, relative
/// humidity, relays and carbon dioxide are recognized by prefix; any other
/// tag becomes its own measure unit, with no name.
pub open spec fn spec_guessed_unit(m: Seq<char>) -> Seq<char> {
    if spec_has_prefix(m, "T"@) || spec_has_prefix(m, "COND"@) {
        "C°"@
    } else if spec_has_prefix(m, "UR"@) {
        "%"@
    } else if spec_has_prefix(m, "RELAY"@) {
        "y/n"@
    } else if spec_has_prefix(m, "CO2"@) {
        "PPM"@
    } else {
        m
    }
}

/// The display name guessed for a tag, where one is recognized.
pub open spec fn spec_guessed_name(m: Seq<char>) -> Option<Seq<char>> {
    if spec_has_prefix(m, "T"@) {
        if spec_has_prefix(m, "TSUP"@) {
            Some("T. Superfice"@)
        } else if spec_has_prefix(m, "T_RUG"@) {
            Some("T. Rugiada"@)
        } else {
            Some("Temperatura"@)
        }
    } else if spec_has_prefix(m, "COND"@) {
        Some("T. Condensa"@)
    } else if spec_has_prefix(m, "UR"@) {
        Some("Umidità Relativa"@)
    } else if spec_has_prefix(m, "RELAY"@) {
        Some("Relay"@)
    } else if spec_has_prefix(m, "CO2"@) {
        Some("CO2"@)
    } else {
        None
    }
}

/// Guess a channel's measure unit and display name from its raw
/// measurement-type tag.
pub fn guess_channel_info(m_type: &str) -> (r: ChannelDetectedData)
    ensures
        r.measure_unit@ == spec_guessed_unit(m_type@),
        r.name matches Some(n) ==> spec_guessed_name(m_type@) == Some(n@),
        r.name is None ==> spec_guessed_name(m_type@) is None,
{
    if has_prefix(m_type, "T") {
        let name = if has_prefix(m_type, "TSUP") {
            Some("T. Superfice".to_owned())
        } else if has_prefix(m_type, "T_RUG") {
            Some("T. Rugiada".to_owned())
        } else {
            Some("Temperatura".to_owned())
        };
        ChannelDetectedData { measure_unit: "C°".to_owned(), name }
    } else if has_prefix(m_type, "COND") {
        ChannelDetectedData {
            measure_unit: "C°".to_owned(),
            name: Some("T. Condensa".to_owned()),
        }
    } else if has_prefix(m_type, "UR") {
        ChannelDetectedData {
            measure_unit: "%".to_owned(),
            name: Some("Umidità Relativa".to_owned()),
        }
    } else if has_prefix(m_type, "RELAY") {
        ChannelDetectedData {
            measure_unit: "y/n".to_owned(),
            name: Some("Relay".to_owned()),
        }
    } else if has_prefix(m_type, "CO2") {
        ChannelDetectedData {
            measure_unit: "PPM".to_owned(),
            name: Some("CO2".to_owned()),
        }
    } else {
        ChannelDetectedData { measure_unit: m_type.to_owned(), name: None }
    }
}

} // verus!
