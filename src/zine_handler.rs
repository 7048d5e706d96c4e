//! The navigation state machine: which screen follows from the current
//! position and one line of input.
use crate::screen::{
    clear_screen, clear_screen_text, missing_page, missing_page_text, missing_section,
    missing_section_text, screen, screen_text,
};
use crate::text::{
    decimal_text, is_digit, lemma_decimal_text, lemma_numeral_trimmed, parse_usize, parsed_number,
    trim_text, trimmed,
};
use crate::zine::Magazine;
use vstd::prelude::*;

verus! {

/// Where a reader stands: on the front page, or inside a section with the
/// position of the next page to show.
#[derive(Clone, Copy, Debug, PartialEq, Eq, Structural)]
pub enum ZineState {
    Front,
    Reading { section: usize, page: usize },
}

/// The words that ask to leave, exactly as they are recognised.
pub open spec fn is_quit_word(s: Seq<char>) -> bool {
    s == "x"@ || s == "X"@ || s == "exit"@ || s == "quit"@
}

/// The quit response: the disconnect sentinel `FF FD 12` as lossy text.
pub open spec fn quit_text() -> Seq<char> {
    seq!['\u{FFFD}', '\u{FFFD}', '\u{12}']
}

/// What is sent when a session ends.
pub open spec fn farewell_text() -> Seq<char> {
    Seq::empty()
}

/// The prompt shown after the last page of a section.
pub open spec fn front_prompt() -> Seq<char> {
    clear_screen_text() + "Press ENTER to go back to front page."@
}

/// The front page screen.
pub open spec fn front_page_text(m: Magazine) -> Seq<char> {
    screen_text(m.front_text@)
}

/// The greeting: the cover screen, then the front page screen.
pub open spec fn greeting_text(m: Magazine) -> Seq<char> {
    screen_text(m.cover_text@) + screen_text(m.front_text@)
}

/// The number of pages of section `s`, or zero where there is no such section.
pub open spec fn section_page_count(m: Magazine, s: int) -> nat {
    if 0 <= s < m.sections@.len() {
        m.sections@[s].pages@.len()
    } else {
        0
    }
}

/// The screen for page `p` of section `s`, or the notice that the section
/// or the page is missing.
pub open spec fn section_page_text(m: Magazine, s: int, p: int) -> Seq<char> {
    if !(0 <= s < m.sections@.len()) {
        missing_section_text((s + 1) as nat)
    } else if 0 <= p < m.sections@[s].pages@.len() {
        screen_text(m.sections@[s].pages@[p].text@)
    } else {
        missing_page_text((s + 1) as nat, (p + 1) as nat)
    }
}

/// The next position and the text to send, for one line of input.
pub open spec fn transition_spec(state: ZineState, input: Seq<char>, m: Magazine) -> (
    ZineState,
    Seq<char>,
) {
    if is_quit_word(input) {
        (state, quit_text())
    } else {
        match state {
            ZineState::Front => {
                let n = parsed_number(trimmed(input));
                if n is Some && n->0 <= usize::MAX {
                    if 1 <= n->0 <= m.sections@.len() {
                        (
                            ZineState::Reading { section: (n->0 - 1) as usize, page: 1 },
                            section_page_text(m, n->0 - 1, 0),
                        )
                    } else {
                        (ZineState::Front, Seq::empty())
                    }
                } else {
                    (ZineState::Front, front_page_text(m))
                }
            },
            ZineState::Reading { section, page } => {
                if page >= section_page_count(m, section as int) {
                    (ZineState::Front, front_prompt())
                } else {
                    (
                        ZineState::Reading { section, page: (page + 1) as usize },
                        section_page_text(m, section as int, page as int),
                    )
                }
            },
        }
    }
}

/// A position is valid when any section it names exists.
pub open spec fn state_valid(state: ZineState, m: Magazine) -> bool {
    match state {
        ZineState::Front => true,
        ZineState::Reading { section, .. } => section < m.sections@.len(),
    }
}

/// Whether `a` and `b` hold the same characters.
pub(crate) fn same_text(a: &str, b: &str) -> (r: bool)
    ensures
        r == (a@ == b@),
{
    let n = a.unicode_len();
    if n != b.unicode_len() {
        return false;
    }
    let mut i: usize = 0;
    while i < n
        invariant
            i <= n,
            n == a@.len(),
            n == b@.len(),
            a@.subrange(0, i as int) == b@.subrange(0, i as int),
        decreases n - i,
    {
        if a.get_char(i) != b.get_char(i) {
            assert(a@[i as int] != b@[i as int]);
            return false;
        }
        assert(a@.subrange(0, i + 1) =~= a@.subrange(0, i as int).push(a@[i as int]));
        assert(b@.subrange(0, i + 1) =~= b@.subrange(0, i as int).push(b@[i as int]));
        i = i + 1;
    }
    assert(a@ =~= a@.subrange(0, n as int));
    assert(b@ =~= b@.subrange(0, n as int));
    true
}

/// Whether `input` is one of the words that ask to leave.
pub fn is_quit(input: &str) -> (r: bool)
    ensures
        r == is_quit_word(input@),
{
    same_text(input, "x") || same_text(input, "X") || same_text(input, "exit") || same_text(
        input,
        "quit",
    )
}

/// The quit response, which is also the disconnect sentinel as text.
pub fn quit_response() -> (r: String)
    ensures
        r@ == quit_text(),
{
    proof {
        reveal_strlit("\u{FFFD}\u{FFFD}\u{12}");
    }
    String::from_str("\u{FFFD}\u{FFFD}\u{12}")
}

/// The screen for page `page` of section `section`, or the notice that the
/// section or the page is missing.
fn display_section_page(magazine: &Magazine, section: usize, page: usize) -> (r: String)
    requires
        section < usize::MAX,
        page < usize::MAX,
    ensures
        r@ == section_page_text(*magazine, section as int, page as int),
{
    if section >= magazine.sections.len() {
        return missing_section(section + 1);
    }
    let sec = &magazine.sections[section];
    if page < sec.pages.len() {
        screen(sec.pages[page].text.as_str())
    } else {
        missing_page(section + 1, page + 1)
    }
}

/// The next position and the text to send, for one line of input.
pub fn transition(state: ZineState, input: &str, magazine: &Magazine) -> (r: (ZineState, String))
    ensures
        r.0 == transition_spec(state, input@, *magazine).0,
        r.1@ == transition_spec(state, input@, *magazine).1,
{
    if is_quit(input) {
        return (state, quit_response());
    }
    match state {
        ZineState::Front => {
            let number = trim_text(input);
            match parse_usize(number.as_str()) {
                Some(index) => {
                    if index > 0 && index <= magazine.sections.len() {
                        (
                            ZineState::Reading { section: index - 1, page: 1 },
                            display_section_page(magazine, index - 1, 0),
                        )
                    } else {
                        (ZineState::Front, String::new())
                    }
                },
                None => (ZineState::Front, screen(magazine.front_text.as_str())),
            }
        },
        ZineState::Reading { section, page } => {
            let section_len = if section < magazine.sections.len() {
                magazine.sections[section].pages.len()
            } else {
                0
            };
            if page >= section_len {
                let mut r = clear_screen();
                r.append("Press ENTER to go back to front page.");
                (ZineState::Front, r)
            } else {
                (
                    ZineState::Reading { section, page: page + 1 },
                    display_section_page(magazine, section, page),
                )
            }
        },
    }
}

/// A reader's navigation through one magazine.
#[derive(Clone, Debug)]
pub struct ZineHandler {
    magazine: Magazine,
    state: ZineState,
}

impl ZineHandler {
    /// The magazine being read.
    pub closed spec fn content(&self) -> Magazine {
        self.magazine
    }

    /// The reader's current position.
    pub closed spec fn current(&self) -> ZineState {
        self.state
    }

    /// The position names only sections that exist.
    pub open spec fn wf(&self) -> bool {
        state_valid(self.current(), self.content())
    }

    /// A reader of `zine`, on its front page.
    pub fn new(zine: Magazine) -> (r: Self)
        ensures
            r.content() == zine,
            r.current() == ZineState::Front,
            r.wf(),
    {
        ZineHandler { state: ZineState::Front, magazine: zine }
    }

    /// The magazine being read.
    pub fn magazine(&self) -> (r: &Magazine)
        ensures
            *r == self.content(),
    {
        &self.magazine
    }

    /// The reader's current position.
    pub fn state(&self) -> (r: ZineState)
        ensures
            r == self.current(),
    {
        self.state
    }

    /// The greeting sent when a reader connects: the cover screen.
    pub fn on_connect(&mut self) -> (r: String)
        ensures
            r@ == greeting_text(old(self).content()),
            *final(self) == *old(self),
    {
        let mut r = screen(self.magazine.cover_text.as_str());
        let front = screen(self.magazine.front_text.as_str());
        r.append(front.as_str());
        r
    }

    /// What is sent when the reader leaves.
    pub fn on_quit(&mut self) -> (r: String)
        ensures
            r@ == farewell_text(),
            *final(self) == *old(self),
    {
        String::new()
    }

    /// The quit response.
    pub fn quit(&self) -> (r: String)
        ensures
            r@ == quit_text(),
    {
        quit_response()
    }

    /// Takes one line of input: moves to the next position and returns the
    /// text to send.
    pub fn handle(&mut self, input: &str) -> (r: String)
        ensures
            final(self).content() == old(self).content(),
            final(self).current() == transition_spec(
                old(self).current(),
                input@,
                old(self).content(),
            ).0,
            r@ == transition_spec(old(self).current(), input@, old(self).content()).1,
            old(self).wf() ==> final(self).wf(),
    {
        proof {
            if self.wf() {
                lemma_transition_keeps_state_valid(self.state, input@, self.magazine);
            }
        }
        let (next, output) = transition(self.state, input, &self.magazine);
        self.state = next;
        output
    }
}

/// No decimal numeral is a quit word.
proof fn lemma_numeral_not_quit_word(n: nat)
    ensures
        !is_quit_word(decimal_text(n)),
{
    lemma_decimal_text(n);
    let t = decimal_text(n);
    assert(is_digit(t[0]));
    reveal_strlit("x");
    reveal_strlit("X");
    reveal_strlit("exit");
    reveal_strlit("quit");
    assert('x' as u32 == 120 && 'X' as u32 == 88 && 'e' as u32 == 101 && 'q' as u32 == 113);
    assert(t != "x"@ && t != "X"@ && t != "exit"@ && t != "quit"@) by {
        assert(t[0] != "x"@[0]);
        assert(t[0] != "X"@[0]);
        assert(t[0] != "exit"@[0]);
        assert(t[0] != "quit"@[0]);
    }
}

/// On the front page, the numeral of a section's number (counted from one)
/// opens that section: the reader moves to its second position and sees its
/// first page.
pub proof fn lemma_front_selects_section(m: Magazine, n: usize)
    requires
        1 <= n <= m.sections@.len(),
    ensures
        transition_spec(ZineState::Front, decimal_text(n as nat), m) == (
            ZineState::Reading { section: (n - 1) as usize, page: 1 },
            section_page_text(m, n - 1, 0),
        ),
        m.sections@[n - 1].pages@.len() > 0 ==> transition_spec(
            ZineState::Front,
            decimal_text(n as nat),
            m,
        ).1 == screen_text(m.sections@[n - 1].pages@[0].text@),
{
    lemma_decimal_text(n as nat);
    lemma_numeral_trimmed(n as nat);
    lemma_numeral_not_quit_word(n as nat);
}

/// On the front page, input that is no number of a section leaves the
/// reader on the front page: a number out of range sends nothing, and
/// anything that is not a number (nor a quit word) shows the front page
/// again. Surrounding whitespace does not count.
pub proof fn lemma_front_stays_on_other_input(m: Magazine, input: Seq<char>)
    requires
        parsed_number(trimmed(input)) is None || parsed_number(trimmed(input))->0 == 0
            || parsed_number(trimmed(input))->0 > m.sections@.len(),
    ensures
        transition_spec(ZineState::Front, input, m).0 == ZineState::Front,
        !is_quit_word(input) && parsed_number(trimmed(input)) is None ==> transition_spec(
            ZineState::Front,
            input,
            m,
        ).1 == front_page_text(m),
        !is_quit_word(input) && parsed_number(trimmed(input)) is Some && parsed_number(
            trimmed(input),
        )->0 <= usize::MAX ==> transition_spec(ZineState::Front, input, m).1 == Seq::<
            char,
        >::empty(),
{
}

/// Inside a section, while pages remain, any input but a quit word shows
/// the page at the current position and advances by one.
pub proof fn lemma_reading_advances(m: Magazine, section: usize, page: usize, input: Seq<char>)
    requires
        section < m.sections@.len(),
        page < m.sections@[section as int].pages@.len(),
        !is_quit_word(input),
    ensures
        transition_spec(ZineState::Reading { section, page }, input, m) == (
            ZineState::Reading { section, page: (page + 1) as usize },
            screen_text(m.sections@[section as int].pages@[page as int].text@),
        ),
{
}

/// Inside a section, once its pages are used up, any input but a quit word
/// returns the reader to the front page with the prompt to press enter.
pub proof fn lemma_reading_returns_to_front(
    m: Magazine,
    section: usize,
    page: usize,
    input: Seq<char>,
)
    requires
        section < m.sections@.len(),
        page >= m.sections@[section as int].pages@.len(),
        !is_quit_word(input),
    ensures
        transition_spec(ZineState::Reading { section, page }, input, m) == (
            ZineState::Front,
            front_prompt(),
        ),
{
}

/// `quit` and `exit` give the quit response whatever the position, and
/// leave the position as it was.
pub proof fn lemma_quit_from_any_state(m: Magazine, state: ZineState)
    ensures
        transition_spec(state, "quit"@, m) == (state, quit_text()),
        transition_spec(state, "exit"@, m) == (state, quit_text()),
{
}

/// On the front page, input that is neither a number nor a quit word gives
/// the front page and the same screen every time: a second such step from
/// where the first one left gives exactly the same result.
pub proof fn lemma_front_redisplay_idempotent(m: Magazine, input: Seq<char>)
    requires
        parsed_number(trimmed(input)) is None,
        !is_quit_word(input),
    ensures
        transition_spec(ZineState::Front, input, m) == (ZineState::Front, front_page_text(m)),
        transition_spec(transition_spec(ZineState::Front, input, m).0, input, m)
            == transition_spec(ZineState::Front, input, m),
{
}

/// Every step keeps the position valid: a section that the reader is in
/// always exists.
pub proof fn lemma_transition_keeps_state_valid(state: ZineState, input: Seq<char>, m: Magazine)
    requires
        state_valid(state, m),
    ensures
        state_valid(transition_spec(state, input, m).0, m),
{
}

} // verus!
