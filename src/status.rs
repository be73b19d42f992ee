use vstd::prelude::*;
use vstd::string::*;

verus! {

/// Identifiers up to this many characters are shown whole.
pub const SHORT_ID_MAX: usize = 12;

/// Characters kept from each end of a longer identifier.
pub const SHORT_ID_KEEP: usize = 6;

/// The display form of an identifier: the identifier itself when it has at
/// most twelve characters, else its first six and last six characters
/// joined by an ellipsis.
pub open spec fn short_id_of(id: Seq<char>) -> Seq<char> {
    if id.len() <= SHORT_ID_MAX {
        id
    } else {
        id.subrange(0, SHORT_ID_KEEP as int) + "..."@ + id.subrange(
            id.len() - SHORT_ID_KEEP,
            id.len() as int,
        )
    }
}

/// The status line published once the daemon is online.
pub open spec fn online_status_of(peer_id: Option<Seq<char>>) -> Seq<char> {
    "Online: "@ + short_id_of(
        match peer_id {
            Some(id) => id,
            None => Seq::empty(),
        },
    )
}

/// An identifier of at most twelve characters is shown as it is; a longer
/// one as its first six characters, an ellipsis and its last six; an empty
/// or absent identifier as nothing.
pub proof fn lemma_short_id_forms(id: Seq<char>)
    ensures
        id.len() <= 12 ==> short_id_of(id) == id,
        id.len() > 12 ==> short_id_of(id) == id.subrange(0, 6) + "..."@ + id.subrange(
            id.len() - 6,
            id.len() as int,
        ),
        id.len() > 12 ==> short_id_of(id).len() == 15,
        short_id_of(Seq::empty()).len() == 0,
        online_status_of(None) == "Online: "@,
{
    reveal_strlit("...");
    assert(online_status_of(None) =~= "Online: "@);
}

/// Shortens an identifier for display; total, and free of side effects.
pub fn short_id(id: &str) -> (r: String)
    ensures
        r@ == short_id_of(id@),
{
    let n = id.unicode_len();
    if n <= SHORT_ID_MAX {
        String::from_str(id)
    } else {
        let mut r = String::from_str(id.substring_char(0, SHORT_ID_KEEP));
        r.append("...");
        r.append(id.substring_char(n - SHORT_ID_KEEP, n));
        r
    }
}

/// The status line for the presence indicator once the daemon runs with the
/// given peer identifier; an absent identifier shows as empty.
pub fn online_status(peer_id: Option<&str>) -> (r: String)
    ensures
        r@ == online_status_of(
            match peer_id {
                Some(id) => Some(id@),
                None => None,
            },
        ),
{
    let short = match peer_id {
        Some(id) => short_id(id),
        None => String::new(),
    };
    String::from_str("Online: ").concat(short.as_str())
}

/// The status line shown before the daemon is ready.
pub fn starting_status() -> (r: String)
    ensures
        r@ == "Status: Starting..."@,
{
    String::from_str("Status: Starting...")
}

} // verus!
