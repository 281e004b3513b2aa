//! The part of a fiscal code that stands for the birth place: the code of the city for
//! people born in Italy, the code of the nation for all others.

use vstd::prelude::*;
use crate::text::chars_of;

verus! {

/// The code that the record of Italy bears in place of a nation code. It says that the
/// birth place is told by the code of the city.
pub open spec fn sentinel_code() -> Seq<char> {
    seq!['0', '0', '0', '0']
}

/// The location code of a person: that of the city where the nation bears the sentinel
/// code, else that of the nation.
pub open spec fn location_fragment(nation_code: Seq<char>, city_code: Seq<char>) -> Seq<char> {
    if nation_code == sentinel_code() {
        city_code
    } else {
        nation_code
    }
}

/// Whether `code` is the sentinel code.
pub fn is_sentinel(code: &str) -> (r: bool)
    ensures
        r == (code@ == sentinel_code()),
{
    let chars = chars_of(code);
    let r = chars.len() == 4 && chars[0] == '0' && chars[1] == '0' && chars[2] == '0'
        && chars[3] == '0';
    proof {
        if r {
            assert(code@ =~= sentinel_code());
        }
    }
    r
}

/// The sentinel code as a string.
pub fn sentinel() -> (code: String)
    ensures
        code@ == sentinel_code(),
{
    let code = "0000".to_owned();
    proof {
        reveal_strlit("0000");
        assert(code@ =~= sentinel_code());
    }
    code
}

} // verus!
