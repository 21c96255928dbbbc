//! Composition of Hangul syllables from single jamo.
//!
//! A syllable is built from a leading consonant, a vowel and, if one
//! follows, a trailing consonant. The composer takes the jamo one by one, as
//! a keyboard gives them, and says after each what there is to put out.

use vstd::prelude::*;

verus! {

/// The first precomposed syllable.
pub const SYLLABLE_BASE: u32 = 0xAC00;

/// Number of leading consonants.
pub const L_COUNT: u32 = 19;

/// Number of vowels.
pub const V_COUNT: u32 = 21;

/// Number of trailing consonants, the empty one included.
pub const T_COUNT: u32 = 28;

/// Number of syllables that share a leading consonant.
pub const N_COUNT: u32 = V_COUNT * T_COUNT;

/// The leading consonants, each at its index.
pub const LEADING_CONSONANTS: [char; 19] = [
    '\u{3131}',
    '\u{3132}',
    '\u{3134}',
    '\u{3137}',
    '\u{3138}',
    '\u{3139}',
    '\u{3141}',
    '\u{3142}',
    '\u{3143}',
    '\u{3145}',
    '\u{3146}',
    '\u{3147}',
    '\u{3148}',
    '\u{3149}',
    '\u{314A}',
    '\u{314B}',
    '\u{314C}',
    '\u{314D}',
    '\u{314E}',
];

/// The vowels, each at its index.
pub const VOWELS: [char; 21] = [
    '\u{314F}',
    '\u{3150}',
    '\u{3151}',
    '\u{3152}',
    '\u{3153}',
    '\u{3154}',
    '\u{3155}',
    '\u{3156}',
    '\u{3157}',
    '\u{3158}',
    '\u{3159}',
    '\u{315A}',
    '\u{315B}',
    '\u{315C}',
    '\u{315D}',
    '\u{315E}',
    '\u{315F}',
    '\u{3160}',
    '\u{3161}',
    '\u{3162}',
    '\u{3163}',
];

/// The trailing consonants, each at its index; index zero stands for a
/// syllable without one.
pub const TRAILING_CONSONANTS: [char; 28] = [
    '\0',
    '\u{3131}',
    '\u{3132}',
    '\u{3133}',
    '\u{3134}',
    '\u{3135}',
    '\u{3136}',
    '\u{3137}',
    '\u{3139}',
    '\u{313A}',
    '\u{313B}',
    '\u{313C}',
    '\u{313D}',
    '\u{313E}',
    '\u{313F}',
    '\u{3140}',
    '\u{3141}',
    '\u{3142}',
    '\u{3144}',
    '\u{3145}',
    '\u{3146}',
    '\u{3147}',
    '\u{3148}',
    '\u{314A}',
    '\u{314B}',
    '\u{314C}',
    '\u{314D}',
    '\u{314E}',
];

/// The first index from `from` on at which `table` holds `ch`.
pub open spec fn spec_position(table: Seq<char>, ch: char, from: int) -> Option<u32>
    decreases table.len() - from,
{
    if from < 0 || from >= table.len() {
        None
    } else if table[from] == ch {
        Some(from as u32)
    } else {
        spec_position(table, ch, from + 1)
    }
}

/// The index of a leading consonant.
pub open spec fn spec_leading_index(ch: char) -> Option<u32> {
    spec_position(LEADING_CONSONANTS@, ch, 0)
}

/// The index of a vowel.
pub open spec fn spec_vowel_index(ch: char) -> Option<u32> {
    spec_position(VOWELS@, ch, 0)
}

/// The index of a trailing consonant; the empty one is no jamo.
pub open spec fn spec_trailing_index(ch: char) -> Option<u32> {
    spec_position(TRAILING_CONSONANTS@, ch, 1)
}

/// The syllable made of the jamo with these indices.
pub open spec fn spec_syllable(leading: u32, vowel: u32, trailing: u32) -> char {
    (SYLLABLE_BASE + leading * N_COUNT + vowel * T_COUNT + trailing) as char
}

/// What the composer holds: the indices of the jamo taken so far.
pub struct ComposerView {
    pub leading: Option<u32>,
    pub vowel: Option<u32>,
    pub trailing: Option<u32>,
}

impl ComposerView {
    /// Each index lies within its table, a vowel stands after a leading
    /// consonant only, and a trailing consonant after a vowel only.
    pub open spec fn wf(&self) -> bool {
        &&& self.leading matches Some(l) ==> l < L_COUNT
        &&& self.vowel matches Some(v) ==> v < V_COUNT
        &&& self.trailing matches Some(t) ==> 1 <= t < T_COUNT
        &&& self.vowel is Some ==> self.leading is Some
        &&& self.trailing is Some ==> self.vowel is Some
    }

    /// Nothing taken yet.
    pub open spec fn empty() -> ComposerView {
        ComposerView { leading: None, vowel: None, trailing: None }
    }

    /// The syllable of the jamo taken so far: there is one as soon as a
    /// leading consonant and a vowel are there.
    pub open spec fn syllable(&self) -> Option<char> {
        match (self.leading, self.vowel) {
            (Some(l), Some(v)) => Some(
                spec_syllable(
                    l,
                    v,
                    match self.trailing {
                        Some(t) => t,
                        None => 0,
                    },
                ),
            ),
            _ => None,
        }
    }

    /// A jamo has been taken.
    pub open spec fn composing(&self) -> bool {
        self.leading is Some || self.vowel is Some || self.trailing is Some
    }

    /// The composer after the jamo `ch`.
    ///
    /// A consonant that can close the syllable does so where a leading
    /// consonant and a vowel wait without a trailing one. Any other leading
    /// consonant starts a syllable, after the one before it where there is
    /// one. A vowel joins a leading consonant that waits alone; after a
    /// syllable that has its vowel, it ends the composition. All else leaves
    /// the composer as it is.
    pub open spec fn after(&self, ch: char) -> ComposerView {
        if self.leading is Some && self.vowel is Some && self.trailing is None
            && spec_trailing_index(ch) is Some {
            ComposerView { trailing: spec_trailing_index(ch), ..*self }
        } else if spec_leading_index(ch) is Some {
            ComposerView { leading: spec_leading_index(ch), vowel: None, trailing: None }
        } else if spec_vowel_index(ch) is Some {
            if self.leading is Some && self.vowel is None {
                ComposerView { vowel: spec_vowel_index(ch), ..*self }
            } else if self.leading is Some {
                ComposerView::empty()
            } else {
                *self
            }
        } else {
            *self
        }
    }

    /// What there is to put out after the jamo `ch`.
    ///
    /// Nothing while the jamo joins the syllable. A leading consonant that
    /// starts a new syllable completes the one before it, and so does a
    /// vowel after a syllable that has its vowel: that vowel is put out
    /// with it. A character that joins nothing is put out as it is.
    pub open spec fn output(&self, ch: char) -> CompositionResult {
        if self.leading is Some && self.vowel is Some && self.trailing is None
            && spec_trailing_index(ch) is Some {
            CompositionResult::Composing
        } else if spec_leading_index(ch) is Some {
            if self.leading is None {
                CompositionResult::Composing
            } else {
                CompositionResult::CompletedWithNew(self.syllable(), None)
            }
        } else if spec_vowel_index(ch) is Some {
            if self.leading is Some && self.vowel is None {
                CompositionResult::Composing
            } else if self.leading is Some {
                CompositionResult::CompletedWithNew(self.syllable(), Some(ch))
            } else {
                CompositionResult::DirectOutput(ch)
            }
        } else {
            CompositionResult::DirectOutput(ch)
        }
    }
}

/// What the composer says after a jamo.
#[derive(Clone, Copy, Debug, PartialEq, Eq, Structural)]
pub enum CompositionResult {
    /// The jamo was taken into the syllable; there is nothing to put out
    /// yet.
    Composing,
    /// The character joins no syllable and is put out as it is.
    DirectOutput(char),
    /// A syllable was completed, if the first field holds one, and the
    /// character in the second, if there is one, is put out after it.
    CompletedWithNew(Option<char>, Option<char>),
}

/// Composes syllables from jamo.
#[derive(Clone, Copy, Debug)]
pub struct HangulComposer {
    leading: Option<u32>,
    vowel: Option<u32>,
    trailing: Option<u32>,
}

impl View for HangulComposer {
    type V = ComposerView;

    closed spec fn view(&self) -> ComposerView {
        ComposerView { leading: self.leading, vowel: self.vowel, trailing: self.trailing }
    }
}

/// Converts a code point to a character.
///
/// Calls `char::from_u32` of the standard library, which gives the
/// character for every Unicode scalar value, and `None` for a surrogate or
/// a number above `0x10FFFF`; the contract states that and is not proved
/// here.
#[verifier::external_body]
fn char_from_u32(code: u32) -> (c: Option<char>)
    ensures
        c == if code <= 0xD7FF || (0xE000 <= code <= 0x10FFFF) {
            Some(code as char)
        } else {
            None
        },
{
    char::from_u32(code)
}

/// Finds the first index from `from` on at which `table` holds `ch`.
fn position(table: &[char], ch: char, from: usize) -> (index: Option<u32>)
    requires
        table.len() <= u32::MAX,
    ensures
        index == spec_position(table@, ch, from as int),
        index matches Some(i) ==> from <= i < table.len(),
{
    let mut i: usize = from;
    while i < table.len()
        invariant
            from <= i,
            table.len() <= u32::MAX,
            spec_position(table@, ch, from as int) == spec_position(table@, ch, i as int),
        decreases table.len() - i,
    {
        if table[i] == ch {
            return Some(i as u32);
        }
        i += 1;
    }
    None
}

impl HangulComposer {
    #[verifier::type_invariant]
    spec fn inv(&self) -> bool {
        self@.wf()
    }

    /// A composer that holds nothing.
    pub fn new() -> (composer: Self)
        ensures
            composer@ == ComposerView::empty(),
            composer@.wf(),
    {
        HangulComposer { leading: None, vowel: None, trailing: None }
    }

    /// The index of `ch` among the leading consonants.
    pub fn is_leading_consonant(&self, ch: char) -> (index: Option<u32>)
        ensures
            index == spec_leading_index(ch),
            index matches Some(l) ==> l < L_COUNT,
    {
        position(&LEADING_CONSONANTS, ch, 0)
    }

    /// The index of `ch` among the vowels.
    pub fn is_vowel(&self, ch: char) -> (index: Option<u32>)
        ensures
            index == spec_vowel_index(ch),
            index matches Some(v) ==> v < V_COUNT,
    {
        position(&VOWELS, ch, 0)
    }

    /// The index of `ch` among the trailing consonants.
    pub fn is_trailing_consonant(&self, ch: char) -> (index: Option<u32>)
        ensures
            index == spec_trailing_index(ch),
            index matches Some(t) ==> 1 <= t < T_COUNT,
    {
        position(&TRAILING_CONSONANTS, ch, 1)
    }

    /// The syllable of the jamo taken so far.
    pub fn get_current_syllable(&self) -> (syllable: Option<char>)
        ensures
            syllable == self@.syllable(),
    {
        proof {
            use_type_invariant(self);
        }
        match (self.leading, self.vowel) {
            (Some(l), Some(v)) => {
                let t: u32 = match self.trailing {
                    Some(t) => t,
                    None => 0,
                };
                assert(l * N_COUNT <= 18 * 588) by (nonlinear_arith)
                    requires
                        l <= 18,
                        N_COUNT == 588,
                ;
                assert(v * T_COUNT <= 20 * 28) by (nonlinear_arith)
                    requires
                        v <= 20,
                        T_COUNT == 28,
                ;
                let code: u32 = SYLLABLE_BASE + l * N_COUNT + v * T_COUNT + t;
                char_from_u32(code)
            },
            _ => None,
        }
    }

    /// Takes one jamo and says what there is to put out.
    pub fn input_jamo(&mut self, ch: char) -> (result: CompositionResult)
        ensures
            final(self)@ == old(self)@.after(ch),
            result == old(self)@.output(ch),
            final(self)@.wf(),
    {
        proof {
            use_type_invariant(&*self);
        }
        if self.leading.is_some() && self.vowel.is_some() && self.trailing.is_none() {
            if let Some(t_idx) = self.is_trailing_consonant(ch) {
                self.trailing = Some(t_idx);
                return CompositionResult::Composing;
            }
        }
        if let Some(l_idx) = self.is_leading_consonant(ch) {
            if self.leading.is_none() {
                self.leading = Some(l_idx);
                return CompositionResult::Composing;
            } else {
                let completed = self.get_current_syllable();
                self.clear();
                self.leading = Some(l_idx);
                return CompositionResult::CompletedWithNew(completed, None);
            }
        }
        if let Some(v_idx) = self.is_vowel(ch) {
            if self.leading.is_some() && self.vowel.is_none() {
                self.vowel = Some(v_idx);
                return CompositionResult::Composing;
            } else if self.leading.is_some() && self.vowel.is_some() {
                let completed = self.get_current_syllable();
                self.clear();
                return CompositionResult::CompletedWithNew(completed, Some(ch));
            } else {
                return CompositionResult::DirectOutput(ch);
            }
        }
        CompositionResult::DirectOutput(ch)
    }

    /// Forgets the jamo taken so far.
    pub fn clear(&mut self)
        ensures
            final(self)@ == ComposerView::empty(),
    {
        *self = HangulComposer { leading: None, vowel: None, trailing: None };
    }

    /// Whether a jamo has been taken.
    pub fn is_composing(&self) -> (composing: bool)
        ensures
            composing == self@.composing(),
    {
        self.leading.is_some() || self.vowel.is_some() || self.trailing.is_some()
    }

    /// Ends the composition: gives the syllable of the jamo taken so far and
    /// forgets them.
    pub fn flush(&mut self) -> (syllable: Option<char>)
        ensures
            syllable == old(self)@.syllable(),
            final(self)@ == ComposerView::empty(),
    {
        let result = self.get_current_syllable();
        self.clear();
        result
    }
}

impl Default for HangulComposer {
    fn default() -> (composer: Self)
        ensures
            composer@ == ComposerView::empty(),
    {
        Self::new()
    }
}

} // verus!
