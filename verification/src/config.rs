//! Phone number configuration: which numbers are allowed, how far each is
//! trusted, and for what purpose it is contacted.
use vstd::prelude::*;
use crate::text::{borrowed, opt_str, opt_string, same};

verus! {

/// How far a phone number is trusted.
#[derive(Debug, Clone, Copy, PartialEq, Eq, Structural)]
pub enum PhoneTrustLevel {
    Trusted,
    Scoped,
}

/// A phone number with its trust level and purpose.
#[derive(Debug, Clone)]
pub struct PhoneNumberConfig {
    pub number: String,
    pub trust: PhoneTrustLevel,
    pub purpose: Option<String>,
}

/// An entry of a list of allowed phone numbers. A bare number is trusted and
/// has no purpose; the number `*` stands for every number.
#[derive(Debug, Clone)]
pub enum PhoneNumberEntry {
    Simple(String),
    Detailed(PhoneNumberConfig),
}

impl PhoneNumberEntry {
    /// The number of the entry.
    pub open spec fn number_text(self) -> Seq<char> {
        match self {
            PhoneNumberEntry::Simple(number) => number@,
            PhoneNumberEntry::Detailed(config) => config.number@,
        }
    }

    /// The trust level of the entry.
    pub open spec fn trust_level(self) -> PhoneTrustLevel {
        match self {
            PhoneNumberEntry::Simple(_) => PhoneTrustLevel::Trusted,
            PhoneNumberEntry::Detailed(config) => config.trust,
        }
    }

    /// The purpose of the entry.
    pub open spec fn purpose_text(self) -> Option<Seq<char>> {
        match self {
            PhoneNumberEntry::Simple(_) => None,
            PhoneNumberEntry::Detailed(config) => opt_string(config.purpose),
        }
    }

    /// Whether the entry stands for a phone number.
    pub open spec fn covers(self, phone: Seq<char>) -> bool {
        self.number_text() == "*"@ || self.number_text() == phone
    }

    /// The number of this entry.
    pub fn number(&self) -> (number: &str)
        ensures
            number@ == self.number_text(),
    {
        match self {
            PhoneNumberEntry::Simple(number) => number.as_str(),
            PhoneNumberEntry::Detailed(config) => config.number.as_str(),
        }
    }

    /// The trust level of this entry.
    pub fn trust(&self) -> (level: PhoneTrustLevel)
        ensures
            level == self.trust_level(),
    {
        match self {
            PhoneNumberEntry::Simple(_) => PhoneTrustLevel::Trusted,
            PhoneNumberEntry::Detailed(config) => config.trust,
        }
    }

    /// The purpose of this entry, if it has one.
    pub fn purpose(&self) -> (purpose: Option<&str>)
        ensures
            opt_str(purpose) == self.purpose_text(),
    {
        match self {
            PhoneNumberEntry::Simple(_) => None,
            PhoneNumberEntry::Detailed(config) => borrowed(&config.purpose),
        }
    }

    fn is_for(&self, phone: &str) -> (covered: bool)
        ensures
            covered == self.covers(phone@),
    {
        same(self.number(), "*") || same(self.number(), phone)
    }
}

/// Whether some entry stands for the phone number.
pub open spec fn number_allowed(entries: Seq<PhoneNumberEntry>, phone: Seq<char>) -> bool {
    exists|i: int| 0 <= i < entries.len() && (#[trigger] entries[i]).covers(phone)
}

/// The trust level of the first entry that stands for the phone number.
pub open spec fn number_trust(entries: Seq<PhoneNumberEntry>, phone: Seq<char>) -> Option<
    PhoneTrustLevel,
>
    decreases entries.len(),
{
    if entries.len() == 0 {
        None
    } else if entries[0].covers(phone) {
        Some(entries[0].trust_level())
    } else {
        number_trust(entries.drop_first(), phone)
    }
}

/// Whether the phone number is trusted: its trust level is full trust, so a
/// scoped number is not, nor is one that no entry stands for.
pub open spec fn number_trusted(entries: Seq<PhoneNumberEntry>, phone: Seq<char>) -> bool {
    number_trust(entries, phone) == Some(PhoneTrustLevel::Trusted)
}

/// The purpose of the first entry that stands for the phone number and has one.
pub open spec fn number_purpose(entries: Seq<PhoneNumberEntry>, phone: Seq<char>) -> Option<
    Seq<char>,
>
    decreases entries.len(),
{
    if entries.len() == 0 {
        None
    } else if entries[0].covers(phone) && entries[0].purpose_text() is Some {
        entries[0].purpose_text()
    } else {
        number_purpose(entries.drop_first(), phone)
    }
}

/// Whether `phone` is in the list.
pub fn is_allowed(entries: &Vec<PhoneNumberEntry>, phone: &str) -> (allowed: bool)
    ensures
        allowed == number_allowed(entries@, phone@),
{
    let mut i: usize = 0;
    while i < entries.len()
        invariant
            i <= entries.len(),
            forall|k: int| 0 <= k < i ==> !(#[trigger] entries@[k]).covers(phone@),
        decreases entries.len() - i,
    {
        if entries[i].is_for(phone) {
            return true;
        }
        i = i + 1;
    }
    false
}

/// Whether `phone` is in the list with full trust.
pub fn is_trusted(entries: &Vec<PhoneNumberEntry>, phone: &str) -> (trusted: bool)
    ensures
        trusted == number_trusted(entries@, phone@),
{
    match trust_of(entries, phone) {
        Some(level) => level == PhoneTrustLevel::Trusted,
        None => false,
    }
}

/// The trust level of the first entry for `phone`.
pub fn trust_of(entries: &Vec<PhoneNumberEntry>, phone: &str) -> (level: Option<PhoneTrustLevel>)
    ensures
        level == number_trust(entries@, phone@),
{
    let mut i: usize = 0;
    assert(entries@.skip(0) =~= entries@);
    while i < entries.len()
        invariant
            i <= entries.len(),
            number_trust(entries@, phone@) == number_trust(entries@.skip(i as int), phone@),
        decreases entries.len() - i,
    {
        assert(entries@.skip(i as int).drop_first() =~= entries@.skip(i + 1));
        if entries[i].is_for(phone) {
            return Some(entries[i].trust());
        }
        i = i + 1;
    }
    None
}

/// The purpose of the first entry for `phone` that has one.
pub fn purpose_of<'a>(entries: &'a Vec<PhoneNumberEntry>, phone: &str) -> (purpose: Option<&'a str>)
    ensures
        opt_str(purpose) == number_purpose(entries@, phone@),
{
    let mut i: usize = 0;
    assert(entries@.skip(0) =~= entries@);
    while i < entries.len()
        invariant
            i <= entries.len(),
            number_purpose(entries@, phone@) == number_purpose(entries@.skip(i as int), phone@),
        decreases entries.len() - i,
    {
        assert(entries@.skip(i as int).drop_first() =~= entries@.skip(i + 1));
        if entries[i].is_for(phone) {
            let purpose = entries[i].purpose();
            if purpose.is_some() {
                return purpose;
            }
        }
        i = i + 1;
    }
    None
}

/// A number has a trust level exactly when it is allowed.
pub proof fn law_trust_level_iff_allowed(entries: Seq<PhoneNumberEntry>, phone: Seq<char>)
    ensures
        number_trust(entries, phone) is Some <==> number_allowed(entries, phone),
    decreases entries.len(),
{
    if entries.len() > 0 {
        let rest = entries.drop_first();
        law_trust_level_iff_allowed(rest, phone);
        if number_allowed(rest, phone) {
            let i = choose|i: int| 0 <= i < rest.len() && (#[trigger] rest[i]).covers(phone);
            assert(entries[i + 1].covers(phone));
        }
        if number_allowed(entries, phone) && !entries[0].covers(phone) {
            let i = choose|i: int| 0 <= i < entries.len() && (#[trigger] entries[i]).covers(phone);
            assert(rest[i - 1].covers(phone));
        }
    }
}

/// A trusted number is allowed.
pub proof fn law_trusted_is_allowed(entries: Seq<PhoneNumberEntry>, phone: Seq<char>)
    ensures
        number_trusted(entries, phone) ==> number_allowed(entries, phone),
{
    law_trust_level_iff_allowed(entries, phone);
}

/// A scoped number is not trusted, whatever other entries stand for it, nor is a
/// number that no entry stands for.
pub proof fn law_scoped_is_not_trusted(entries: Seq<PhoneNumberEntry>, phone: Seq<char>)
    ensures
        number_trust(entries, phone) == Some(PhoneTrustLevel::Scoped) ==> !number_trusted(
            entries,
            phone,
        ),
        !number_allowed(entries, phone) ==> !number_trusted(entries, phone),
{
    law_trust_level_iff_allowed(entries, phone);
}

/// An empty list allows no number, and a list with the entry `*` allows every
/// number.
pub proof fn law_empty_denies_wildcard_allows(entries: Seq<PhoneNumberEntry>, phone: Seq<char>)
    ensures
        entries.len() == 0 ==> !number_allowed(entries, phone),
        (exists|i: int|
            0 <= i < entries.len() && (#[trigger] entries[i]).number_text() == "*"@)
            ==> number_allowed(entries, phone),
{
    if exists|i: int| 0 <= i < entries.len() && (#[trigger] entries[i]).number_text() == "*"@ {
        let i = choose|i: int|
            0 <= i < entries.len() && (#[trigger] entries[i]).number_text() == "*"@;
        assert(entries[i].covers(phone));
    }
}

/// A number that has a purpose is allowed.
pub proof fn law_purpose_only_of_allowed(entries: Seq<PhoneNumberEntry>, phone: Seq<char>)
    ensures
        number_purpose(entries, phone) is Some ==> number_allowed(entries, phone),
    decreases entries.len(),
{
    if entries.len() > 0 {
        let rest = entries.drop_first();
        law_purpose_only_of_allowed(rest, phone);
        if number_allowed(rest, phone) {
            let i = choose|i: int| 0 <= i < rest.len() && (#[trigger] rest[i]).covers(phone);
            assert(entries[i + 1].covers(phone));
        }
    }
}

/// A bare number is trusted and has no purpose; a detailed one has those that
/// are given for it.
pub proof fn law_entry_says_what_is_configured(entry: PhoneNumberEntry)
    ensures
        match entry {
            PhoneNumberEntry::Simple(number) => {
                &&& entry.number_text() == number@
                &&& entry.trust_level() == PhoneTrustLevel::Trusted
                &&& entry.purpose_text() is None
            },
            PhoneNumberEntry::Detailed(config) => {
                &&& entry.number_text() == config.number@
                &&& entry.trust_level() == config.trust
                &&& config.purpose is None ==> entry.purpose_text() is None
                &&& config.purpose is Some ==> entry.purpose_text() == Some(config.purpose->0@)
            },
        },
{
}

/// A number is allowed exactly when an entry has it or the wildcard.
pub proof fn law_allowed_by_number_or_wildcard(entries: Seq<PhoneNumberEntry>, phone: Seq<char>)
    ensures
        number_allowed(entries, phone) <==> exists|i: int|
            0 <= i < entries.len() && ((#[trigger] entries[i]).number_text() == phone
                || entries[i].number_text() == "*"@),
{
    if number_allowed(entries, phone) {
        let i = choose|i: int| 0 <= i < entries.len() && (#[trigger] entries[i]).covers(phone);
        assert(entries[i].number_text() == phone || entries[i].number_text() == "*"@);
    }
    if exists|i: int|
        0 <= i < entries.len() && ((#[trigger] entries[i]).number_text() == phone
            || entries[i].number_text() == "*"@) {
        let i = choose|i: int|
            0 <= i < entries.len() && ((#[trigger] entries[i]).number_text() == phone
                || entries[i].number_text() == "*"@);
        assert(entries[i].covers(phone));
    }
}

/// The first entry that has a number or the wildcard decides how far the number
/// is trusted.
pub proof fn law_first_entry_decides_trust(
    entries: Seq<PhoneNumberEntry>,
    phone: Seq<char>,
    n: int,
)
    requires
        0 <= n < entries.len(),
        entries[n].number_text() == phone || entries[n].number_text() == "*"@,
        forall|i: int|
            0 <= i < n ==> (#[trigger] entries[i]).number_text() != phone
                && entries[i].number_text() != "*"@,
    ensures
        number_trust(entries, phone) == Some(entries[n].trust_level()),
        number_trusted(entries, phone) <==> entries[n].trust_level() == PhoneTrustLevel::Trusted,
    decreases n,
{
    if n > 0 {
        let rest = entries.drop_first();
        assert(entries[0].number_text() != phone);
        assert forall|i: int| 0 <= i < n - 1 implies (#[trigger] rest[i]).number_text() != phone
            && rest[i].number_text() != "*"@ by {
            assert(rest[i] == entries[i + 1]);
        }
        law_first_entry_decides_trust(rest, phone, n - 1);
    }
}

/// The purpose of a number is that of the first entry that has the number or the
/// wildcard, and a purpose.
pub proof fn law_first_purpose_counts(entries: Seq<PhoneNumberEntry>, phone: Seq<char>, n: int)
    requires
        0 <= n < entries.len(),
        entries[n].number_text() == phone || entries[n].number_text() == "*"@,
        entries[n].purpose_text() is Some,
        forall|i: int|
            0 <= i < n ==> ((#[trigger] entries[i]).number_text() != phone
                && entries[i].number_text() != "*"@) || entries[i].purpose_text() is None,
    ensures
        number_purpose(entries, phone) == entries[n].purpose_text(),
    decreases n,
{
    if n > 0 {
        let rest = entries.drop_first();
        assert(!entries[0].covers(phone) || entries[0].purpose_text() is None);
        assert forall|i: int| 0 <= i < n - 1 implies ((#[trigger] rest[i]).number_text() != phone
            && rest[i].number_text() != "*"@) || rest[i].purpose_text() is None by {
            assert(rest[i] == entries[i + 1]);
        }
        law_first_purpose_counts(rest, phone, n - 1);
    }
}

/// A number has no purpose where none of the entries that have it or the
/// wildcard has one.
pub proof fn law_no_purpose_without_entry(entries: Seq<PhoneNumberEntry>, phone: Seq<char>)
    requires
        forall|i: int|
            0 <= i < entries.len() ==> ((#[trigger] entries[i]).number_text() != phone
                && entries[i].number_text() != "*"@) || entries[i].purpose_text() is None,
    ensures
        number_purpose(entries, phone) is None,
    decreases entries.len(),
{
    if entries.len() > 0 {
        let rest = entries.drop_first();
        assert(!entries[0].covers(phone) || entries[0].purpose_text() is None);
        assert forall|i: int| 0 <= i < rest.len() implies ((#[trigger] rest[i]).number_text()
            != phone && rest[i].number_text() != "*"@) || rest[i].purpose_text() is None by {
            assert(rest[i] == entries[i + 1]);
        }
        law_no_purpose_without_entry(rest, phone);
    }
}

} // verus!
