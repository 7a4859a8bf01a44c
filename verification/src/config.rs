//! The configuration snapshot and how it is read from raw settings.
//!
//! Every setting arrives as an optional string, absent where it was not set.

use vstd::prelude::*;
use crate::target::text_of;
use crate::text::{lemma_texts_push, same_text, texts};

verus! {

/// The port to listen on where none is set, or where the setting is no port.
pub const DEFAULT_PORT: u16 = 8080;

/// The configuration of one proxy process. It is made once and only read
/// afterwards.
#[derive(Clone, Debug)]
pub struct ProxyConfig {
    /// The interface to bind.
    pub listen_address: String,
    pub listen_port: u16,
    /// The hosts that may be targets. `None` allows every host; an empty
    /// list allows none.
    pub allowed_domains: Option<Vec<String>>,
    pub logging_enabled: bool,
}

/// The allow-list as character sequences; `None` allows every host.
pub open spec fn allow_list(allowed: Option<Vec<String>>) -> Option<Seq<Seq<char>>> {
    match allowed {
        Some(hosts) => Some(texts(hosts@)),
        None => None,
    }
}

/// Cuts a text at its commas, read from left to right: a comma closes the
/// current piece and opens an empty one, any other character extends the
/// current piece. A text without comma is one piece, the empty text too.
pub open spec fn split_commas(s: Seq<char>) -> Seq<Seq<char>>
    decreases s.len(),
{
    if s.len() == 0 {
        seq![Seq::<char>::empty()]
    } else {
        let before = split_commas(s.drop_last());
        if s.last() == ',' {
            before.push(Seq::empty())
        } else {
            before.drop_last().push(before.last().push(s.last()))
        }
    }
}

/// The number of commas in a text.
pub open spec fn comma_count(s: Seq<char>) -> nat
    decreases s.len(),
{
    if s.len() == 0 {
        0
    } else if s.last() == ',' {
        comma_count(s.drop_last()) + 1
    } else {
        comma_count(s.drop_last())
    }
}

/// A text falls into one piece more than it has commas, and no piece holds
/// a comma.
pub proof fn lemma_split_commas_pieces(s: Seq<char>)
    ensures
        split_commas(s).len() == comma_count(s) + 1,
        forall|i: int, j: int|
            0 <= i < split_commas(s).len() && 0 <= j < split_commas(s)[i].len()
                ==> split_commas(s)[i][j] != ',',
    decreases s.len(),
{
    if s.len() > 0 {
        lemma_split_commas_pieces(s.drop_last());
    }
}

/// Pieces written one after the other, with a comma between neighbours.
pub open spec fn join_commas(pieces: Seq<Seq<char>>) -> Seq<char>
    decreases pieces.len(),
{
    if pieces.len() == 0 {
        Seq::empty()
    } else if pieces.len() == 1 {
        pieces[0]
    } else {
        join_commas(pieces.drop_last()).push(',') + pieces.last()
    }
}

/// Joining the pieces of a text with commas gives the text back.
pub proof fn lemma_join_undoes_split(s: Seq<char>)
    ensures
        join_commas(split_commas(s)) == s,
    decreases s.len(),
{
    if s.len() == 0 {
        assert(join_commas(split_commas(s)) =~= s);
    } else {
        let shorter = s.drop_last();
        let before = split_commas(shorter);
        lemma_join_undoes_split(shorter);
        lemma_split_commas_pieces(shorter);
        assert(shorter.push(s.last()) =~= s);
        if s.last() == ',' {
            let pieces = before.push(Seq::empty());
            assert(pieces.drop_last() =~= before);
            assert(join_commas(pieces) =~= shorter.push(','));
        } else {
            let grown = before.last().push(s.last());
            let pieces = before.drop_last().push(grown);
            assert(pieces.drop_last() =~= before.drop_last());
            assert(join_commas(pieces) =~= join_commas(before).push(s.last()));
        }
    }
}

/// Reads the list of allowed hosts from its comma-separated form. Nothing
/// is trimmed or dropped: `"a,,b "` gives `"a"`, `""` and `"b "`.
pub fn parse_allowed_domains(raw: &str) -> (domains: Vec<String>)
    ensures
        texts(domains@) == split_commas(raw@),
{
    let n = raw.unicode_len();
    let mut domains: Vec<String> = Vec::new();
    let mut start: usize = 0;
    let mut i: usize = 0;
    proof {
        assert(raw@.subrange(0, 0) =~= Seq::<char>::empty());
        assert(texts(domains@).push(raw@.subrange(0, 0)) =~= seq![Seq::<char>::empty()]);
    }
    while i < n
        invariant
            start <= i <= n,
            n == raw@.len(),
            split_commas(raw@.subrange(0, i as int)) == texts(domains@).push(
                raw@.subrange(start as int, i as int),
            ),
        decreases n - i,
    {
        let c = raw.get_char(i);
        let ghost before = texts(domains@);
        let ghost piece = raw@.subrange(start as int, i as int);
        let ghost longer = raw@.subrange(0, i as int + 1);
        proof {
            assert(longer.drop_last() =~= raw@.subrange(0, i as int));
            assert(longer.last() == c);
            assert(before.push(piece).drop_last() =~= before);
        }
        if c == ',' {
            let closed = raw.substring_char(start, i).to_owned();
            proof {
                lemma_texts_push(domains@, closed);
            }
            domains.push(closed);
            start = i + 1;
            proof {
                assert(raw@.subrange(start as int, i as int + 1) =~= Seq::<char>::empty());
            }
        } else {
            proof {
                assert(raw@.subrange(start as int, i as int + 1) =~= piece.push(c));
            }
        }
        i += 1;
    }
    let last = raw.substring_char(start, n).to_owned();
    proof {
        lemma_texts_push(domains@, last);
        assert(raw@.subrange(0, n as int) =~= raw@);
    }
    domains.push(last);
    domains
}

/// Whether a character is one of the ten ASCII digits.
pub open spec fn is_digit(c: char) -> bool {
    48 <= c as u32 && c as u32 <= 57
}

/// The number that a run of digits writes in base ten; 0 for no digit.
pub open spec fn decimal(digits: Seq<char>) -> nat
    decreases digits.len(),
{
    if digits.len() == 0 {
        0
    } else {
        decimal(digits.drop_last()) * 10 + (digits.last() as u32 - 48) as nat
    }
}

/// Whether a text holds digits only.
pub open spec fn all_digits(s: Seq<char>) -> bool {
    forall|i: int| 0 <= i < s.len() ==> is_digit(#[trigger] s[i])
}

/// A text without its leading plus sign, if it has one.
pub open spec fn unsigned_part(s: Seq<char>) -> Seq<char> {
    if s.len() > 0 && s[0] == '+' {
        s.subrange(1, s.len() as int)
    } else {
        s
    }
}

/// The port that a text writes: an optional plus sign, then at least one
/// digit and digits only, with a value of at most 65535. Leading zeros
/// count for nothing; spaces and other signs make the text no port.
pub open spec fn port_of(s: Seq<char>) -> Option<u16> {
    let digits = unsigned_part(s);
    if digits.len() > 0 && all_digits(digits) && decimal(digits) <= u16::MAX {
        Some(decimal(digits) as u16)
    } else {
        None
    }
}

/// A run of digits writes a number no smaller than any of its prefixes.
pub proof fn lemma_decimal_prefix(digits: Seq<char>, k: int)
    requires
        0 <= k <= digits.len(),
        all_digits(digits),
    ensures
        decimal(digits.subrange(0, k)) <= decimal(digits),
    decreases digits.len() - k,
{
    if k == digits.len() {
        assert(digits.subrange(0, k) =~= digits);
    } else {
        let shorter = digits.drop_last();
        assert(is_digit(digits[digits.len() - 1]));
        assert(all_digits(shorter)) by {
            assert forall|i: int| 0 <= i < shorter.len() implies is_digit(#[trigger] shorter[i]) by {
                assert(shorter[i] == digits[i]);
            }
        }
        lemma_decimal_prefix(shorter, k);
        assert(shorter.subrange(0, k) =~= digits.subrange(0, k));
    }
}

/// Reads a port number from its decimal form.
pub fn parse_port(raw: &str) -> (port: Option<u16>)
    ensures
        port == port_of(raw@),
{
    let n = raw.unicode_len();
    if n == 0 {
        return None;
    }
    let start: usize = if raw.get_char(0) == '+' {
        1
    } else {
        0
    };
    let ghost digits = unsigned_part(raw@);
    proof {
        assert(digits =~= raw@.subrange(start as int, n as int));
    }
    if start == n {
        return None;
    }
    let mut value: u32 = 0;
    let mut i: usize = start;
    proof {
        assert(digits.subrange(0, 0) =~= Seq::<char>::empty());
    }
    while i < n
        invariant
            start <= i <= n,
            n == raw@.len(),
            digits == unsigned_part(raw@),
            digits == raw@.subrange(start as int, n as int),
            all_digits(digits.subrange(0, i - start)),
            value == decimal(digits.subrange(0, i - start)),
            value <= u16::MAX,
        decreases n - i,
    {
        let c = raw.get_char(i);
        let code = c as u32;
        let ghost seen = digits.subrange(0, i - start);
        let ghost longer = digits.subrange(0, i - start + 1);
        proof {
            assert(digits[i - start] == c);
            assert(longer.drop_last() =~= seen);
            assert(longer.last() == c);
        }
        if code < 48 || code > 57 {
            proof {
                assert(!is_digit(digits[i - start]));
            }
            return None;
        }
        let next: u32 = value * 10 + (code - 48);
        proof {
            assert(all_digits(longer)) by {
                assert forall|j: int| 0 <= j < longer.len() implies is_digit(#[trigger] longer[j]) by {
                    if j < seen.len() {
                        assert(longer[j] == seen[j]);
                    }
                }
            }
            assert(next == decimal(longer));
        }
        if next > 65535 {
            proof {
                if all_digits(digits) {
                    lemma_decimal_prefix(digits, i - start + 1);
                }
            }
            return None;
        }
        value = next;
        i += 1;
    }
    proof {
        assert(digits.subrange(0, n - start) =~= digits);
    }
    Some(value as u16)
}

/// The port to listen on: the one that the setting writes, or 8080 where it
/// is absent or writes none.
pub open spec fn port_setting(raw: Option<Seq<char>>) -> u16 {
    match raw {
        Some(s) => match port_of(s) {
            Some(port) => port,
            None => DEFAULT_PORT,
        },
        None => DEFAULT_PORT,
    }
}

/// Whether logging is switched on: only by the exact text `true`.
pub open spec fn logging_setting(raw: Option<Seq<char>>) -> bool {
    raw == Some("true"@)
}

/// The interface to bind: the one set, or every interface.
pub open spec fn address_setting(raw: Option<Seq<char>>) -> Seq<char> {
    match raw {
        Some(s) => s,
        None => "0.0.0.0"@,
    }
}

/// The allow-list that a setting writes: none where it is absent, and
/// otherwise its pieces between commas.
pub open spec fn allowed_setting(raw: Option<Seq<char>>) -> Option<Seq<Seq<char>>> {
    match raw {
        Some(s) => Some(split_commas(s)),
        None => None,
    }
}

impl ProxyConfig {
    /// Builds the configuration from the four raw settings, each `None`
    /// where it is not set.
    pub fn from_settings(
        logging_enabled: Option<String>,
        port: Option<String>,
        address: Option<String>,
        allowed_domains: Option<String>,
    ) -> (config: ProxyConfig)
        ensures
            config.logging_enabled == logging_setting(text_of(logging_enabled)),
            config.listen_port == port_setting(text_of(port)),
            config.listen_address@ == address_setting(text_of(address)),
            allow_list(config.allowed_domains) == allowed_setting(text_of(allowed_domains)),
    {
        let logging = match &logging_enabled {
            Some(s) => same_text(s.as_str(), "true"),
            None => false,
        };
        let listen_port = match &port {
            Some(s) => match parse_port(s.as_str()) {
                Some(p) => p,
                None => DEFAULT_PORT,
            },
            None => DEFAULT_PORT,
        };
        let listen_address = match address {
            Some(s) => s,
            None => "0.0.0.0".to_owned(),
        };
        let allowed = match &allowed_domains {
            Some(s) => Some(parse_allowed_domains(s.as_str())),
            None => None,
        };
        ProxyConfig {
            listen_address,
            listen_port,
            allowed_domains: allowed,
            logging_enabled: logging,
        }
    }
}

} // verus!
