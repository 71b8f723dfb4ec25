use vstd::prelude::*;

verus! {

/// The games this program can run.
#[derive(Clone, Copy, PartialEq, Eq, Structural, Debug)]
pub enum GameTitle {
    Pong,
}

/// The command-line options.
#[derive(Clone, Copy, PartialEq, Eq, Structural, Debug)]
pub struct Opt {
    pub title: GameTitle,
}

/// Whether `c` is the lower-case letter `lower`, in either ASCII case.
pub open spec fn letter_matches(c: char, lower: char) -> bool {
    c == lower || ('A' <= c <= 'Z' && c as u32 + 32 == lower as u32)
}

/// Whether `name` spells "pong", ignoring ASCII case.
pub open spec fn names_pong(name: Seq<char>) -> bool {
    name.len() == pong_name().len() && forall|i: int|
        0 <= i < pong_name().len() ==> letter_matches(#[trigger] name[i], pong_name()[i])
}

/// The name of the one game, in lower case.
pub open spec fn pong_name() -> Seq<char> {
    seq!['p', 'o', 'n', 'g']
}

fn char_matches(c: char, lower: char) -> (r: bool)
    ensures
        r == letter_matches(c, lower),
{
    c == lower || ('A' <= c && c <= 'Z' && c as u32 + 32 == lower as u32)
}

impl GameTitle {
    /// The title that `name` selects, ignoring ASCII case; `None` for a name
    /// that selects no game.
    pub fn from_name(name: &str) -> (r: Option<GameTitle>)
        ensures
            r is Some <==> names_pong(name@),
            r is Some ==> r->Some_0 == GameTitle::Pong,
    {
        let pong = ['p', 'o', 'n', 'g'];
        let ghost want = pong_name();
        assert(pong@ =~= want);
        assert(want.len() == 4);
        if name.unicode_len() != 4 {
            return None;
        }
        let mut i: usize = 0;
        while i < 4
            invariant
                0 <= i <= 4,
                name@.len() == 4,
                pong@ == want,
                want == pong_name(),
                forall|j: int| 0 <= j < i ==> letter_matches(#[trigger] name@[j], want[j]),
            decreases 4 - i,
        {
            let c = name.get_char(i);
            if !char_matches(c, pong[i]) {
                assert(!letter_matches(name@[i as int], want[i as int]));
                return None;
            }
            i = i + 1;
        }
        Some(GameTitle::Pong)
    }
}

impl Opt {
    /// The options when none are given: Pong.
    pub fn new() -> (r: Opt)
        ensures
            r.title == GameTitle::Pong,
    {
        Opt { title: GameTitle::Pong }
    }
}

} // verus!
