//! Finding the record that holds an access token, from the rows that the
//! database returned for it.

use vstd::prelude::*;
use crate::models::ValueCekToken;
use crate::status::{INTERNAL_SERVER_ERROR, UNAUTHORIZED};

verus! {

/// The outcome of reading `rows` in order for `token`, when the rows read
/// before them left `last` as the chosen record. A row that could not be
/// read (`None`) is answered with status 500; a row whose access token is
/// not `token` with status 401; otherwise the last row is chosen, and
/// `Ok(None)` means that there was no row at all.
pub open spec fn lookup_from(
    rows: Seq<Option<ValueCekToken>>,
    token: Seq<char>,
    last: Option<ValueCekToken>,
) -> Result<Option<ValueCekToken>, u16>
    decreases rows.len(),
{
    if rows.len() == 0 {
        Ok(last)
    } else {
        match rows[0] {
            None => Err(INTERNAL_SERVER_ERROR),
            Some(u) => if u.access_token@ != token {
                Err(UNAUTHORIZED)
            } else {
                lookup_from(rows.drop_first(), token, Some(u))
            },
        }
    }
}

/// The outcome of reading all of `rows` for `token`.
pub open spec fn lookup_outcome(rows: Seq<Option<ValueCekToken>>, token: Seq<char>) -> Result<
    Option<ValueCekToken>,
    u16,
> {
    lookup_from(rows, token, None)
}

/// Picks the holder of `token` from the rows that the query for it gave
/// (`None` for a row that could not be decoded). The first unreadable or
/// foreign row decides an error (500 or 401); otherwise the last row is the
/// answer, and with no rows the blank record is.
pub fn cek_token(rows: &Vec<Option<ValueCekToken>>, token: &String) -> (r: Result<ValueCekToken, u16>)
    ensures
        match lookup_outcome(rows@, token@) {
            Err(code) => r == Err::<ValueCekToken, u16>(code),
            Ok(Some(u)) => r == Ok::<ValueCekToken, u16>(u),
            Ok(None) => r matches Ok(v) && v.is_blank(),
        },
{
    let mut last: Option<ValueCekToken> = None;
    let n = rows.len();
    let mut i: usize = 0;
    assert(rows@.skip(0) =~= rows@);
    while i < n
        invariant
            n == rows@.len(),
            i <= n,
            lookup_from(rows@.skip(i as int), token@, last) == lookup_outcome(rows@, token@),
        decreases n - i,
    {
        assert(rows@.skip(i as int).drop_first() =~= rows@.skip(i + 1));
        match &rows[i] {
            None => {
                return Err(INTERNAL_SERVER_ERROR);
            },
            Some(u) => {
                if !(u.access_token == *token) {
                    return Err(UNAUTHORIZED);
                }
                last = Some(u.copy());
            },
        }
        i = i + 1;
    }
    assert(rows@.skip(n as int).len() == 0);
    match last {
        Some(u) => Ok(u),
        None => Ok(ValueCekToken::blank()),
    }
}

/// A record that the lookup settles on holds exactly the token asked for.
pub proof fn lemma_lookup_finds_holder(rows: Seq<Option<ValueCekToken>>, token: Seq<char>)
    ensures
        lookup_outcome(rows, token) matches Ok(Some(u)) ==> u.access_token@ == token,
{
    lemma_lookup_from_holder(rows, token, None);
}

proof fn lemma_lookup_from_holder(
    rows: Seq<Option<ValueCekToken>>,
    token: Seq<char>,
    last: Option<ValueCekToken>,
)
    requires
        last matches Some(u) ==> u.access_token@ == token,
    ensures
        lookup_from(rows, token, last) matches Ok(Some(u)) ==> u.access_token@ == token,
    decreases rows.len(),
{
    if rows.len() > 0 {
        if let Some(u) = rows[0] {
            if u.access_token@ == token {
                lemma_lookup_from_holder(rows.drop_first(), token, Some(u));
            }
        }
    }
}


/// Rows that all hold the token asked for, as the query by access token
/// returns them, never make the lookup fail: the answer is the last of them,
/// or no record when there is none.
pub proof fn lemma_matching_rows_never_fail(rows: Seq<Option<ValueCekToken>>, token: Seq<char>)
    requires
        forall|i: int| 0 <= i < rows.len() ==> (#[trigger] rows[i] matches Some(u) && u.access_token@ == token),
    ensures
        lookup_outcome(rows, token) == (if rows.len() == 0 {
            Ok::<Option<ValueCekToken>, u16>(None)
        } else {
            Ok::<Option<ValueCekToken>, u16>(rows.last())
        }),
{
    lemma_matching_rows_from(rows, token, None);
}

proof fn lemma_matching_rows_from(
    rows: Seq<Option<ValueCekToken>>,
    token: Seq<char>,
    last: Option<ValueCekToken>,
)
    requires
        forall|i: int| 0 <= i < rows.len() ==> (#[trigger] rows[i] matches Some(u) && u.access_token@ == token),
    ensures
        lookup_from(rows, token, last) == (if rows.len() == 0 {
            Ok::<Option<ValueCekToken>, u16>(last)
        } else {
            Ok::<Option<ValueCekToken>, u16>(rows.last())
        }),
    decreases rows.len(),
{
    if rows.len() > 0 {
        let rest = rows.drop_first();
        assert(rows[0] matches Some(u) && u.access_token@ == token);
        assert forall|i: int| 0 <= i < rest.len() implies (#[trigger] rest[i] matches Some(u)
            && u.access_token@ == token) by {
            assert(rest[i] == rows[i + 1]);
        }
        lemma_matching_rows_from(rest, token, rows[0]);
        if rest.len() > 0 {
            assert(rest.last() == rows.last());
        }
    }
}

} // verus!
