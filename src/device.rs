//! Choosing the capture device by a name-matching policy.
use vstd::prelude::*;
use vstd::string::StrSliceExecFns;
use vstd::string::StringExecFns;

verus! {

/// What `str::to_lowercase` gives for the characters `s`.
pub uninterp spec fn lower_of(s: Seq<char>) -> Seq<char>;

/// Relies on `str::to_lowercase`: the lowercase form of a name, a function
/// of its characters alone.
#[verifier::external_body]
fn lowercase(s: &str) -> (r: String)
    ensures
        r@ == lower_of(s@),
{
    s.to_lowercase()
}

/// Whether `needle` occurs as a contiguous run of characters in `hay`.
pub open spec fn occurs_in(hay: Seq<char>, needle: Seq<char>) -> bool {
    exists|i: int|
        0 <= i <= hay.len() - needle.len() && #[trigger] hay.subrange(i, i + needle.len())
            == needle
}

/// Whether a lowercase device name holds one of `patterns`.
pub open spec fn name_matches(name: Seq<char>, patterns: Seq<Seq<char>>) -> bool {
    exists|k: int| 0 <= k < patterns.len() && occurs_in(name, #[trigger] patterns[k])
}

/// Index of the first name at or after `from` that matches `patterns`.
pub open spec fn first_match_from(names: Seq<Seq<char>>, patterns: Seq<Seq<char>>, from: int) -> Option<
    int,
>
    decreases names.len() - from,
{
    if from < 0 || from >= names.len() {
        None
    } else if name_matches(names[from], patterns) {
        Some(from)
    } else {
        first_match_from(names, patterns, from + 1)
    }
}

/// The device that the selector settles on.
#[derive(Clone, Copy, Debug, PartialEq, Eq, Structural)]
pub enum DeviceChoice {
    /// The enumerated device at this position.
    Listed(usize),
    /// The subsystem's designated default input device.
    SystemDefault,
    /// No input device at all.
    NoDevice,
}

/// Selection over lowercase names: the first name that matches, else the
/// default device if there is one.
pub open spec fn choice_of(names: Seq<Seq<char>>, patterns: Seq<Seq<char>>, has_default: bool) -> DeviceChoice {
    match first_match_from(names, patterns, 0) {
        Some(i) => DeviceChoice::Listed(i as usize),
        None => if has_default {
            DeviceChoice::SystemDefault
        } else {
            DeviceChoice::NoDevice
        },
    }
}

/// The names of `names` in lowercase.
pub open spec fn lowered(names: Seq<String>) -> Seq<Seq<char>> {
    names.map_values(|n: String| lower_of(n@))
}

/// Whether `needle` occurs in `hay`.
pub fn occurs(hay: &str, needle: &str) -> (r: bool)
    ensures
        r == occurs_in(hay@, needle@),
{
    let h = hay.unicode_len();
    let n = needle.unicode_len();
    if n > h {
        return false;
    }
    let mut i: usize = 0;
    while i <= h - n
        invariant
            h == hay@.len(),
            n == needle@.len(),
            n <= h,
            i <= h - n + 1,
            forall|p: int| 0 <= p < i ==> #[trigger] hay@.subrange(p, p + n) != needle@,
        decreases h - n + 1 - i,
    {
        let mut j: usize = 0;
        let mut same = true;
        while j < n && same
            invariant
                h == hay@.len(),
                n == needle@.len(),
                i + n <= h,
                j <= n,
                same ==> forall|q: int| 0 <= q < j ==> hay@[i + q] == needle@[q],
                !same ==> hay@[i + j - 1] != needle@[j - 1] && j >= 1,
            decreases n - j + (if same { 1int } else { 0int }),
        {
            if hay.get_char(i + j) != needle.get_char(j) {
                same = false;
            }
            j += 1;
        }
        if same {
            assert(hay@.subrange(i as int, i + n) =~= needle@);
            return true;
        }
        assert(hay@.subrange(i as int, i + n)[j - 1] != needle@[j - 1]);
        i += 1;
    }
    proof {
        assert forall|p: int| 0 <= p <= h - n implies #[trigger] hay@.subrange(p, p + n) != needle@ by {}
    }
    false
}

proof fn lemma_no_match_from(names: Seq<Seq<char>>, patterns: Seq<Seq<char>>, from: int)
    requires
        0 <= from,
        forall|i: int| from <= i < names.len() ==> !name_matches(#[trigger] names[i], patterns),
    ensures
        first_match_from(names, patterns, from) == None::<int>,
    decreases names.len() - from,
{
    if from < names.len() {
        lemma_no_match_from(names, patterns, from + 1);
    }
}

proof fn lemma_match_at(names: Seq<Seq<char>>, patterns: Seq<Seq<char>>, from: int, m: int)
    requires
        0 <= from <= m < names.len(),
        name_matches(names[m], patterns),
        forall|i: int| from <= i < m ==> !name_matches(#[trigger] names[i], patterns),
    ensures
        first_match_from(names, patterns, from) == Some(m),
    decreases m - from,
{
    if from < m {
        lemma_match_at(names, patterns, from + 1, m);
    }
}

/// When no device name matches the policy, selection falls back to the
/// default device, or to none when there is no default.
pub proof fn selection_falls_back(names: Seq<Seq<char>>, patterns: Seq<Seq<char>>)
    requires
        forall|i: int| 0 <= i < names.len() ==> !name_matches(#[trigger] names[i], patterns),
    ensures
        choice_of(names, patterns, true) == DeviceChoice::SystemDefault,
        choice_of(names, patterns, false) == DeviceChoice::NoDevice,
{
    lemma_no_match_from(names, patterns, 0);
}

/// When exactly one device name matches the policy, that device is selected,
/// wherever it stands in the enumeration and whether or not there is a
/// default device.
pub proof fn selection_finds_single_match(
    names: Seq<Seq<char>>,
    patterns: Seq<Seq<char>>,
    m: int,
    has_default: bool,
)
    requires
        0 <= m < names.len(),
        name_matches(names[m], patterns),
        forall|i: int|
            0 <= i < names.len() && i != m ==> !name_matches(#[trigger] names[i], patterns),
    ensures
        choice_of(names, patterns, has_default) == DeviceChoice::Listed(m as usize),
{
    lemma_match_at(names, patterns, 0, m);
}

/// The name patterns that mark a preferred capture device.
pub struct DevicePolicy {
    pub patterns: Vec<String>,
}

impl View for DevicePolicy {
    type V = Seq<Seq<char>>;

    open spec fn view(&self) -> Seq<Seq<char>> {
        self.patterns@.map_values(|p: String| p@)
    }
}

impl DevicePolicy {
    /// Prefers loopback ("monitor") and plain analog stereo inputs.
    pub fn standard() -> (r: Self)
        ensures
            r@ == seq![
                seq!['m', 'o', 'n', 'i', 't', 'o', 'r'],
                seq!['a', 'n', 'a', 'l', 'o', 'g', ' ', 's', 't', 'e', 'r', 'e', 'o'],
            ],
    {
        let mut patterns: Vec<String> = Vec::new();
        patterns.push(String::from_str("monitor"));
        patterns.push(String::from_str("analog stereo"));
        proof {
            reveal_strlit("monitor");
            reveal_strlit("analog stereo");
        }
        let r = DevicePolicy { patterns };
        assert(r@[0] =~= seq!['m', 'o', 'n', 'i', 't', 'o', 'r']);
        assert(r@[1] =~= seq!['a', 'n', 'a', 'l', 'o', 'g', ' ', 's', 't', 'e', 'r', 'e', 'o']);
        assert(r@ =~= seq![
            seq!['m', 'o', 'n', 'i', 't', 'o', 'r'],
            seq!['a', 'n', 'a', 'l', 'o', 'g', ' ', 's', 't', 'e', 'r', 'e', 'o'],
        ]);
        r
    }

    /// Whether the lowercase name `name` holds one of the patterns.
    pub fn matches(&self, name: &str) -> (r: bool)
        ensures
            r == name_matches(name@, self@),
    {
        let mut k: usize = 0;
        while k < self.patterns.len()
            invariant
                k <= self.patterns@.len(),
                forall|m: int| 0 <= m < k ==> !occurs_in(name@, #[trigger] self@[m]),
            decreases self.patterns@.len() - k,
        {
            if occurs(name, self.patterns[k].as_str()) {
                assert(occurs_in(name@, self@[k as int]));
                return true;
            }
            k += 1;
        }
        false
    }

    /// Picks among lowercase device names: the first that matches, else the
    /// default device when `has_default`, else none.
    pub fn choose_device(&self, names: &Vec<String>, has_default: bool) -> (r: DeviceChoice)
        ensures
            r == choice_of(names@.map_values(|n: String| n@), self@, has_default),
    {
        let ghost all = names@.map_values(|n: String| n@);
        let mut i: usize = 0;
        while i < names.len()
            invariant
                all == names@.map_values(|n: String| n@),
                i <= names@.len(),
                first_match_from(all, self@, 0) == first_match_from(all, self@, i as int),
            decreases names@.len() - i,
        {
            if self.matches(names[i].as_str()) {
                return DeviceChoice::Listed(i);
            }
            i += 1;
        }
        if has_default {
            DeviceChoice::SystemDefault
        } else {
            DeviceChoice::NoDevice
        }
    }

    /// Selects the capture device from the enumerated device names, compared
    /// in lowercase.
    pub fn select_input_device(&self, names: &Vec<String>, has_default: bool) -> (r: DeviceChoice)
        ensures
            r == choice_of(lowered(names@), self@, has_default),
    {
        let mut low: Vec<String> = Vec::new();
        let mut i: usize = 0;
        while i < names.len()
            invariant
                i <= names@.len(),
                low@.len() == i,
                forall|j: int| 0 <= j < i ==> #[trigger] low@[j]@ == lower_of(names@[j]@),
            decreases names@.len() - i,
        {
            low.push(lowercase(names[i].as_str()));
            i += 1;
        }
        assert(low@.map_values(|n: String| n@) =~= lowered(names@));
        self.choose_device(&low, has_default)
    }
}

} // verus!
