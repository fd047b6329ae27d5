//! Tokenizer: splits a raw input line into words under shell-style quoting
//! rules and classifies each word into a typed token.
//!
//! The grammar is small: whitespace separates words except inside a pair of
//! matching quote characters, which group their contents (embedded whitespace
//! included) into one word and are stripped from it. An unbalanced quote is a
//! hard failure, and so is an empty line, since no program word can be
//! derived from it.

use vstd::prelude::*;

verus! {

/// Word separators of the input line.
pub open spec fn is_space_char(c: char) -> bool {
    c == ' ' || c == '\t' || c == '\n' || c == '\r'
}

/// Quote characters that group words.
pub open spec fn is_quote_char(c: char) -> bool {
    c == '"' || c == '\''
}

/// State of the word-splitting automaton after reading a prefix of the line:
/// the words already completed, the word in progress, whether a word is in
/// progress at all (an empty quoted group starts a word without adding a
/// character), and the quote character currently open, if any.
pub struct LexState {
    pub words: Seq<Seq<char>>,
    pub cur: Seq<char>,
    pub started: bool,
    pub quote: Option<char>,
}

pub open spec fn lex_init() -> LexState {
    LexState { words: Seq::empty(), cur: Seq::empty(), started: false, quote: None }
}

/// One step of the splitting automaton on the next character.
pub open spec fn lex_step(st: LexState, c: char) -> LexState {
    match st.quote {
        Some(q) => if c == q {
            LexState { words: st.words, cur: st.cur, started: st.started, quote: None }
        } else {
            LexState { words: st.words, cur: st.cur.push(c), started: st.started, quote: Some(q) }
        },
        None => if is_quote_char(c) {
            LexState { words: st.words, cur: st.cur, started: true, quote: Some(c) }
        } else if is_space_char(c) {
            if st.started {
                LexState {
                    words: st.words.push(st.cur),
                    cur: Seq::empty(),
                    started: false,
                    quote: None,
                }
            } else {
                st
            }
        } else {
            LexState { words: st.words, cur: st.cur.push(c), started: true, quote: None }
        },
    }
}

/// The automaton run over the first `n` characters of the line.
pub open spec fn lex_run(s: Seq<char>, n: int) -> LexState
    decreases n,
{
    if n <= 0 {
        lex_init()
    } else {
        lex_step(lex_run(s, n - 1), s[n - 1])
    }
}

/// The words of a line, or `None` when a quote is left open at its end.
pub open spec fn shell_split(s: Seq<char>) -> Option<Seq<Seq<char>>> {
    let st = lex_run(s, s.len() as int);
    if st.quote is Some {
        None
    } else if st.started {
        Some(st.words.push(st.cur))
    } else {
        Some(st.words)
    }
}

/// One step of plain whitespace splitting, with no quote handling at all.
pub open spec fn space_step(st: LexState, c: char) -> LexState {
    if is_space_char(c) {
        if st.started {
            LexState { words: st.words.push(st.cur), cur: Seq::empty(), started: false, quote: None }
        } else {
            st
        }
    } else {
        LexState { words: st.words, cur: st.cur.push(c), started: true, quote: st.quote }
    }
}

/// Plain whitespace splitting run over the first `n` characters.
pub open spec fn space_run(s: Seq<char>, n: int) -> LexState
    decreases n,
{
    if n <= 0 {
        lex_init()
    } else {
        space_step(space_run(s, n - 1), s[n - 1])
    }
}

/// The whitespace-separated words of a line.
pub open spec fn space_words(s: Seq<char>) -> Seq<Seq<char>> {
    let st = space_run(s, s.len() as int);
    if st.started {
        st.words.push(st.cur)
    } else {
        st.words
    }
}

/// How many whitespace-separated words a line holds.
pub open spec fn space_word_count(s: Seq<char>) -> nat {
    space_words(s).len()
}

proof fn lemma_lex_run_unquoted(s: Seq<char>, n: int)
    requires
        0 <= n <= s.len(),
        forall|i: int| 0 <= i < s.len() ==> !is_quote_char(#[trigger] s[i]),
    ensures
        lex_run(s, n) == space_run(s, n),
        space_run(s, n).quote is None,
    decreases n,
{
    if n > 0 {
        lemma_lex_run_unquoted(s, n - 1);
    }
}

/// On a line with no quoted segments splitting always succeeds and yields
/// exactly the whitespace-separated words, so the number of produced tokens
/// equals the number of such words, and the first token is always the
/// program token.
pub proof fn lemma_unquoted_token_count(s: Seq<char>)
    requires
        forall|i: int| 0 <= i < s.len() ==> !is_quote_char(#[trigger] s[i]),
    ensures
        shell_split(s) == Some(space_words(s)),
        tokens_of(space_words(s)).len() == space_word_count(s),
        space_word_count(s) > 0 ==> tokens_of(space_words(s))[0] is Program,
{
    lemma_lex_run_unquoted(s, s.len() as int);
}

/// Raised when the raw line cannot be tokenized at all.
#[derive(Debug, PartialEq, Eq, Structural)]
pub enum TokenizeError {
    /// A quote character was opened and never closed.
    UnbalancedQuote,
    /// The line holds no word, so no program token can be derived.
    EmptyInput,
}

/// Relies on std's `String::push`: appends the given character to the end of
/// this `String`.
#[verifier::external_body]
fn push_char(s: &mut String, c: char)
    ensures
        final(s)@ == old(s)@.push(c),
{
    s.push(c);
}

/// Splits a raw line into words under the quoting rules of [`shell_split`].
pub fn split_line(raw: &str) -> (r: Result<Vec<String>, TokenizeError>)
    ensures
        match r {
            Ok(words) => shell_split(raw@) == Some(words.deep_view()),
            Err(e) => shell_split(raw@) is None && e == TokenizeError::UnbalancedQuote,
        },
{
    let n = raw.unicode_len();
    let mut words: Vec<String> = Vec::new();
    let mut cur = String::new();
    let mut started = false;
    let mut quote: Option<char> = None;
    let mut i: usize = 0;
    while i < n
        invariant
            n == raw@.len(),
            i <= n,
            lex_run(raw@, i as int).words == words.deep_view(),
            lex_run(raw@, i as int).cur == cur@,
            lex_run(raw@, i as int).started == started,
            lex_run(raw@, i as int).quote == quote,
        decreases n - i,
    {
        let c = raw.get_char(i);
        match quote {
            Some(q) => {
                if c == q {
                    quote = None;
                } else {
                    push_char(&mut cur, c);
                }
            },
            None => {
                if c == '"' || c == '\'' {
                    quote = Some(c);
                    started = true;
                } else if c == ' ' || c == '\t' || c == '\n' || c == '\r' {
                    if started {
                        let ghost pre = words.deep_view();
                        words.push(cur);
                        proof {
                            assert(words.deep_view() =~= pre.push(cur@));
                        }
                        cur = String::new();
                        started = false;
                    }
                } else {
                    push_char(&mut cur, c);
                    started = true;
                }
            },
        }
        i = i + 1;
    }
    if quote.is_some() {
        Err(TokenizeError::UnbalancedQuote)
    } else if started {
        let ghost pre = words.deep_view();
        words.push(cur);
        proof {
            assert(words.deep_view() =~= pre.push(cur@));
        }
        Ok(words)
    } else {
        Ok(words)
    }
}

/// A classified unit of the raw input line.
#[derive(Debug, PartialEq)]
pub enum InputPart {
    /// The invoked program name: always the first word.
    Program(String),
    /// A bare word: a candidate command name.
    Command(String),
    /// A word starting with exactly one dash.
    ShortArg(String),
    /// A word starting with two dashes.
    LongArg(String),
    /// A dequoted group that still holds interior whitespace.
    StringLiteral(String),
}

/// The mathematical shape of a token: the same variants over character
/// sequences.
pub enum PartModel {
    Program(Seq<char>),
    Command(Seq<char>),
    ShortArg(Seq<char>),
    LongArg(Seq<char>),
    StringLiteral(Seq<char>),
}

impl View for InputPart {
    type V = PartModel;

    open spec fn view(&self) -> PartModel {
        match self {
            InputPart::Program(s) => PartModel::Program(s@),
            InputPart::Command(s) => PartModel::Command(s@),
            InputPart::ShortArg(s) => PartModel::ShortArg(s@),
            InputPart::LongArg(s) => PartModel::LongArg(s@),
            InputPart::StringLiteral(s) => PartModel::StringLiteral(s@),
        }
    }
}

/// A word that begins with exactly one dash and not two.
pub open spec fn starts_short(w: Seq<char>) -> bool {
    w.len() >= 1 && w[0] == '-' && !(w.len() >= 2 && w[1] == '-')
}

/// A word that begins with two dashes.
pub open spec fn starts_long(w: Seq<char>) -> bool {
    w.len() >= 2 && w[0] == '-' && w[1] == '-'
}

/// A word holding an interior space: it must have come from a quoted group.
pub open spec fn has_interior_space(w: Seq<char>) -> bool {
    exists|i: int| 0 <= i < w.len() && w[i] == ' '
}

/// Structural classification of one word, in precedence order.
pub open spec fn classify(w: Seq<char>) -> PartModel {
    if starts_short(w) {
        PartModel::ShortArg(w)
    } else if starts_long(w) {
        PartModel::LongArg(w)
    } else if has_interior_space(w) {
        PartModel::StringLiteral(w)
    } else {
        PartModel::Command(w)
    }
}

/// The token sequence for a word sequence: the first word is the program,
/// every later word is classified structurally.
pub open spec fn tokens_of(words: Seq<Seq<char>>) -> Seq<PartModel> {
    Seq::new(
        words.len(),
        |i: int| if i == 0 {
            PartModel::Program(words[0])
        } else {
            classify(words[i])
        },
    )
}

/// The models of a token list.
pub open spec fn parts_view(parts: Seq<InputPart>) -> Seq<PartModel> {
    parts.map_values(|p: InputPart| p@)
}

/// The raw input line together with its words and its classified tokens.
#[derive(Debug, PartialEq)]
pub struct Input {
    pub raw: String,
    pub split: Vec<String>,
    pub lexed: Vec<InputPart>,
}

impl Input {
    /// Classifies one word by structural inspection alone: a leading dash
    /// that is not doubled makes a short argument, a doubled one a long
    /// argument, an interior space a string literal, anything else a
    /// command name.
    pub fn get_part(raw: &str) -> (p: InputPart)
        ensures
            p@ == classify(raw@),
    {
        let n = raw.unicode_len();
        let dash1 = n >= 1 && raw.get_char(0) == '-';
        let dash2 = n >= 2 && raw.get_char(1) == '-';
        if dash1 && !dash2 {
            InputPart::ShortArg(String::from_str(raw))
        } else if dash1 && dash2 {
            InputPart::LongArg(String::from_str(raw))
        } else {
            let mut found = false;
            let mut i: usize = 0;
            while i < n
                invariant
                    n == raw@.len(),
                    i <= n,
                    found == exists|j: int| 0 <= j < i && raw@[j] == ' ',
                decreases n - i,
            {
                if raw.get_char(i) == ' ' {
                    found = true;
                }
                i = i + 1;
            }
            if found {
                InputPart::StringLiteral(String::from_str(raw))
            } else {
                InputPart::Command(String::from_str(raw))
            }
        }
    }

    /// Splits and classifies a raw line. Fails when a quote is unbalanced or
    /// when the line holds no word at all; otherwise the first word becomes
    /// the program token and every later word is classified in order.
    pub fn new(raw: &str) -> (r: Result<Input, TokenizeError>)
        ensures
            match r {
                Ok(inp) => {
                    &&& shell_split(raw@) matches Some(ws)
                    &&& shell_split(raw@)->Some_0.len() > 0
                    &&& inp.raw@ == raw@
                    &&& inp.split.deep_view() == shell_split(raw@)->Some_0
                    &&& parts_view(inp.lexed@) == tokens_of(shell_split(raw@)->Some_0)
                },
                Err(TokenizeError::UnbalancedQuote) => shell_split(raw@) is None,
                Err(TokenizeError::EmptyInput) => shell_split(raw@) == Some(
                    Seq::<Seq<char>>::empty(),
                ),
            },
    {
        let words = match split_line(raw) {
            Ok(words) => words,
            Err(e) => {
                return Err(e);
            },
        };
        if words.len() == 0 {
            proof {
                assert(words.deep_view() =~= Seq::<Seq<char>>::empty());
            }
            return Err(TokenizeError::EmptyInput);
        }
        let ghost ws = words.deep_view();
        let mut lexed: Vec<InputPart> = Vec::new();
        lexed.push(InputPart::Program(words[0].clone()));
        let mut i: usize = 1;
        proof {
            assert(parts_view(lexed@) =~= tokens_of(ws).take(1));
        }
        while i < words.len()
            invariant
                1 <= i <= words.len(),
                ws == words.deep_view(),
                ws.len() == words.len(),
                parts_view(lexed@) == tokens_of(ws).take(i as int),
            decreases words.len() - i,
        {
            let p = Self::get_part(words[i].as_str());
            let ghost pre = lexed@;
            lexed.push(p);
            proof {
                assert(lexed@ == pre.push(p));
                assert(tokens_of(ws).len() == ws.len());
                assert(parts_view(pre).len() == pre.len());
                assert(pre.len() == i);
                assert(parts_view(lexed@).len() == lexed@.len());
                assert(p@ == tokens_of(ws)[i as int]);
                assert forall|k: int| 0 <= k < i + 1 implies parts_view(lexed@)[k] == tokens_of(
                    ws,
                ).take(i + 1)[k] by {
                    assert(tokens_of(ws).take(i + 1)[k] == tokens_of(ws)[k]);
                    assert(parts_view(lexed@)[k] == lexed@[k]@);
                    if k < i {
                        assert(lexed@[k] == pre[k]);
                        assert(parts_view(pre)[k] == pre[k]@);
                        assert(parts_view(pre)[k] == tokens_of(ws).take(i as int)[k]);
                        assert(tokens_of(ws).take(i as int)[k] == tokens_of(ws)[k]);
                    } else {
                        assert(lexed@[k] == p);
                    }
                }
                assert(parts_view(lexed@).len() == i + 1);
                assert(parts_view(lexed@) =~= tokens_of(ws).take(i + 1));
            }
            i = i + 1;
        }
        proof {
            assert(tokens_of(ws).take(ws.len() as int) =~= tokens_of(ws));
        }
        Ok(Input { raw: String::from_str(raw), split: words, lexed })
    }
}

} // verus!
