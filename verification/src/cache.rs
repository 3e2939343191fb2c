use vstd::prelude::*;

verus! {

/// How long a cached answer stays usable: 12 hours.
pub const CACHE_TTL_SECS: u64 = 12 * 3600;

/// The same span in nanoseconds.
pub const CACHE_TTL_NANOS: i128 = 12 * 3600 * 1_000_000_000;

/// A directory of cached answers, one `<key>.json` file per key.
pub struct Cache {
    dir: String,
}

impl View for Cache {
    type V = Seq<char>;

    /// The cache directory.
    closed spec fn view(&self) -> Seq<char> {
        self.dir@
    }
}

/// Whether an entry last written at `modified` (nanoseconds since the Unix
/// epoch, absent when the file or its time cannot be read) can still be
/// served at `now`: it must not lie in the future, and it must be younger than
/// the time to live.
pub open spec fn is_fresh_at(modified: Option<int>, now: int) -> bool {
    match modified {
        Some(m) => m <= now && now - m < CACHE_TTL_NANOS,
        None => false,
    }
}

impl Cache {
    /// A cache kept in `dir`.
    pub fn new(dir: String) -> (cache: Cache)
        ensures
            cache@ == dir@,
    {
        Cache { dir }
    }

    /// The cache directory.
    pub fn dir(&self) -> (r: &str)
        ensures
            r@ == self@,
    {
        self.dir.as_str()
    }

    /// The name of the file that holds the entry for `key`.
    pub fn file_name(key: &str) -> (r: String)
        ensures
            r@ == key@ + ".json"@,
    {
        let mut name = key.to_owned();
        name.append(".json");
        name
    }

    /// Whether an entry written at `modified_nanos` is served at `now_nanos`
    /// (both in nanoseconds since the Unix epoch).
    pub fn is_fresh(modified_nanos: Option<i128>, now_nanos: i128) -> (r: bool)
        ensures
            r == is_fresh_at(
                match modified_nanos {
                    Some(m) => Some(m as int),
                    None => None,
                },
                now_nanos as int,
            ),
    {
        match modified_nanos {
            None => false,
            Some(modified) => {
                if modified > now_nanos {
                    false
                } else if now_nanos < i128::MIN + CACHE_TTL_NANOS {
                    true
                } else {
                    modified > now_nanos - CACHE_TTL_NANOS
                }
            },
        }
    }
}


/// An entry is served exactly while it is younger than twelve hours and not
/// dated in the future; an entry that cannot be dated is never served; and of
/// two entries read at the same time, the older is served only if the newer is.
pub proof fn lemma_freshness_is_twelve_hours_of_age(m: int, m2: int, now: int)
    ensures
        CACHE_TTL_NANOS == 12 * 3600 * 1_000_000_000,
        m <= now ==> (is_fresh_at(Some(m), now) <==> now - m < 12 * 3600 * 1_000_000_000),
        now - m >= 12 * 3600 * 1_000_000_000 ==> !is_fresh_at(Some(m), now),
        m > now ==> !is_fresh_at(Some(m), now),
        !is_fresh_at(None, now),
        m <= m2 <= now && is_fresh_at(Some(m), now) ==> is_fresh_at(Some(m2), now),
{
}

} // verus!
