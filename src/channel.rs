use vstd::prelude::*;

verus! {

/// `c` is the lowercase letter `lower`, or an ASCII capital of it.
pub open spec fn same_letter_ignoring_ascii_case(c: char, lower: char) -> bool {
    ||| c == lower
    ||| ('a' as u32 <= lower as u32 <= 'z' as u32 && c as u32 + 32 == lower as u32)
}

/// `s` spells the lowercase word `word`, each ASCII letter in either case.
pub open spec fn spells_ignoring_ascii_case(s: Seq<char>, word: Seq<char>) -> bool {
    &&& s.len() == word.len()
    &&& forall|i: int| 0 <= i < s.len() ==> same_letter_ignoring_ascii_case(s[i], word[i])
}

/// The channel that a settings value names, if it names one.
pub open spec fn channel_named(s: Seq<char>) -> Option<ChromeChannel> {
    if spells_ignoring_ascii_case(s, ChromeChannel::Stable.token()) {
        Some(ChromeChannel::Stable)
    } else if spells_ignoring_ascii_case(s, ChromeChannel::Canary.token()) {
        Some(ChromeChannel::Canary)
    } else if spells_ignoring_ascii_case(s, ChromeChannel::Beta.token()) {
        Some(ChromeChannel::Beta)
    } else if spells_ignoring_ascii_case(s, ChromeChannel::Dev.token()) {
        Some(ChromeChannel::Dev)
    } else {
        None
    }
}

fn spells_word(s: &str, word: &str) -> (r: bool)
    ensures
        r == spells_ignoring_ascii_case(s@, word@),
{
    let n = s.unicode_len();
    if n != word.unicode_len() {
        return false;
    }
    let mut i: usize = 0;
    while i < n
        invariant
            n == s@.len() == word@.len(),
            i <= n,
            forall|j: int| 0 <= j < i ==> same_letter_ignoring_ascii_case(s@[j], word@[j]),
        decreases n - i,
    {
        let c = s.get_char(i);
        let w = word.get_char(i);
        let same = c == w || ('a' <= w && w <= 'z' && c as u32 + 32 == w as u32);
        if !same {
            return false;
        }
        i = i + 1;
    }
    true
}

/// Release channel of the browser that the server launches.
#[derive(Clone, Copy, Debug, PartialEq, Eq, Structural)]
pub enum ChromeChannel {
    Stable,
    Canary,
    Beta,
    Dev,
}

impl ChromeChannel {
    /// The lowercase word by which the server's command line names the channel.
    pub open spec fn token(self) -> Seq<char> {
        match self {
            ChromeChannel::Stable => "stable"@,
            ChromeChannel::Canary => "canary"@,
            ChromeChannel::Beta => "beta"@,
            ChromeChannel::Dev => "dev"@,
        }
    }

    pub fn as_str(&self) -> (r: &'static str)
        ensures
            r@ == self.token(),
    {
        match self {
            ChromeChannel::Stable => "stable",
            ChromeChannel::Canary => "canary",
            ChromeChannel::Beta => "beta",
            ChromeChannel::Dev => "dev",
        }
    }

    /// Reads a channel name, in any mix of ASCII upper and lower case.
    pub fn parse(name: &str) -> (r: Option<ChromeChannel>)
        ensures
            r == channel_named(name@),
    {
        if spells_word(name, "stable") {
            Some(ChromeChannel::Stable)
        } else if spells_word(name, "canary") {
            Some(ChromeChannel::Canary)
        } else if spells_word(name, "beta") {
            Some(ChromeChannel::Beta)
        } else if spells_word(name, "dev") {
            Some(ChromeChannel::Dev)
        } else {
            None
        }
    }
}

} // verus!
