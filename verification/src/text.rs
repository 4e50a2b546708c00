//! Text handling for the scoring rules: ASCII-oriented tokenization of
//! window titles and application names, a token weight table, and substring
//! search for the keyword rules.
//!
//! Weights are integers in thousandths of the real-valued weights in
//! `[-1, 1]`, so a weight of `900` stands for `0.9`.

use vstd::prelude::*;

verus! {

/// A word character for tokenization purposes: an ASCII letter or digit.
/// Anything else, including every non-ASCII character, separates tokens.
pub open spec fn spec_is_word_char(c: char) -> bool {
    ||| '0' <= c <= '9'
    ||| 'a' <= c <= 'z'
    ||| 'A' <= c <= 'Z'
}

/// ASCII lowercasing of one character; other characters pass unchanged.
pub open spec fn spec_lower_char(c: char) -> char {
    if 'A' <= c <= 'Z' {
        ((c as u8) + 32) as char
    } else {
        c
    }
}

/// ASCII lowercasing of a whole character sequence.
pub open spec fn spec_lower(s: Seq<char>) -> Seq<char> {
    s.map_values(|c: char| spec_lower_char(c))
}

fn is_word_char(c: char) -> (r: bool)
    ensures
        r == spec_is_word_char(c),
{
    ('0' <= c && c <= '9') || ('a' <= c && c <= 'z') || ('A' <= c && c <= 'Z')
}

fn lower_char(c: char) -> (r: char)
    ensures
        r == spec_lower_char(c),
{
    if 'A' <= c && c <= 'Z' {
        ((c as u8) + 32) as char
    } else {
        c
    }
}

/// The characters of `s`, in order, as a vector.
pub fn to_chars(s: &str) -> (v: Vec<char>)
    ensures
        v@ == s@,
{
    let mut v: Vec<char> = Vec::new();
    for c in it: s.chars()
        invariant
            it.seq() == s@,
            v@ == it.seq().take(it.index() as int),
    {
        v.push(c);
    }
    proof {
        assert(v@ =~= s@);
    }
    v
}

/// ASCII lowercasing of a whole character vector.
pub fn to_lower(text: &Vec<char>) -> (r: Vec<char>)
    ensures
        r@ == spec_lower(text@),
{
    let mut r: Vec<char> = Vec::new();
    let n = text.len();
    for i in 0..n
        invariant
            n == text.len(),
            r@ =~= spec_lower(text@.take(i as int)),
    {
        r.push(lower_char(text[i]));
        proof {
            assert(text@.take(i + 1).drop_last() =~= text@.take(i as int));
            assert(r@ =~= spec_lower(text@.take(i + 1)));
        }
    }
    proof {
        assert(text@.take(n as int) =~= text@);
    }
    r
}

/// Whether two character vectors hold the same characters.
pub fn chars_eq(a: &Vec<char>, b: &Vec<char>) -> (r: bool)
    ensures
        r == (a@ == b@),
{
    if a.len() != b.len() {
        proof {
            assert(a@ != b@);
        }
        return false;
    }
    let n = a.len();
    for i in 0..n
        invariant
            n == a.len() == b.len(),
            forall|j: int| 0 <= j < i ==> a@[j] == b@[j],
    {
        if a[i] != b[i] {
            return false;
        }
    }
    proof {
        assert(a@ =~= b@);
    }
    true
}

/// `needle` occurs contiguously somewhere in `hay`.
pub open spec fn spec_contains_sub(hay: Seq<char>, needle: Seq<char>) -> bool {
    exists|k: int|
        0 <= k && k + needle.len() <= hay.len() && #[trigger] hay.subrange(k, k + needle.len())
            == needle
}

/// Substring search: whether `needle` occurs contiguously in `hay`.
pub fn contains_sub(hay: &Vec<char>, needle: &Vec<char>) -> (r: bool)
    ensures
        r == spec_contains_sub(hay@, needle@),
{
    let m = needle.len();
    let n = hay.len();
    if m > n {
        return false;
    }
    let mut k: usize = 0;
    while k <= n - m
        invariant
            m == needle.len(),
            n == hay.len(),
            m <= n,
            k <= n - m + 1,
            forall|k0: int|
                0 <= k0 < k ==> #[trigger] hay@.subrange(k0, k0 + needle@.len()) != needle@,
        decreases n - m + 1 - k,
    {
        let mut all_eq = true;
        for i in 0..m
            invariant
                m == needle.len(),
                n == hay.len(),
                k + m <= n,
                all_eq <==> (forall|j: int| 0 <= j < i ==> hay@[k + j] == needle@[j]),
        {
            if hay[k + i] != needle[i] {
                all_eq = false;
            }
        }
        if all_eq {
            proof {
                assert(hay@.subrange(k as int, k + needle@.len()) =~= needle@);
            }
            return true;
        } else {
            proof {
                let sub = hay@.subrange(k as int, k + needle@.len());
                let j = choose|j: int| 0 <= j < m && hay@[k + j] != needle@[j];
                assert(sub[j] != needle@[j]);
                assert(sub != needle@);
            }
        }
        k = k + 1;
    }
    false
}

/// The lowercased maximal runs of word characters in `s`, given the run
/// `cur` gathered so far.
pub open spec fn spec_scan_tokens(s: Seq<char>, cur: Seq<char>) -> Seq<Seq<char>>
    decreases s.len(),
{
    if s.len() == 0 {
        if cur.len() == 0 {
            Seq::empty()
        } else {
            seq![cur]
        }
    } else if spec_is_word_char(s[0]) {
        spec_scan_tokens(s.drop_first(), cur.push(spec_lower_char(s[0])))
    } else if cur.len() == 0 {
        spec_scan_tokens(s.drop_first(), cur)
    } else {
        seq![cur] + spec_scan_tokens(s.drop_first(), Seq::empty())
    }
}

/// The tokens of `s`: its maximal runs of ASCII letters and digits, each
/// lowercased, in order of appearance.
pub open spec fn spec_tokens(s: Seq<char>) -> Seq<Seq<char>> {
    spec_scan_tokens(s, Seq::empty())
}

/// The views of a vector of token vectors.
pub open spec fn views_of(toks: Seq<Vec<char>>) -> Seq<Seq<char>> {
    toks.map_values(|t: Vec<char>| t@)
}

/// Splits `text` into its lowercased word-character tokens.
pub fn tokenize(text: &Vec<char>) -> (toks: Vec<Vec<char>>)
    ensures
        views_of(toks@) == spec_tokens(text@),
{
    let mut out: Vec<Vec<char>> = Vec::new();
    let mut cur: Vec<char> = Vec::new();
    let n = text.len();
    proof {
        assert(text@.skip(0) =~= text@);
        assert(views_of(out@) =~= Seq::<Seq<char>>::empty());
        assert(views_of(out@) + spec_scan_tokens(text@, cur@) =~= spec_tokens(text@));
    }
    for i in 0..n
        invariant
            n == text.len(),
            views_of(out@) + spec_scan_tokens(text@.skip(i as int), cur@) == spec_tokens(text@),
    {
        proof {
            assert(text@.skip(i as int).drop_first() =~= text@.skip(i + 1));
            assert(text@.skip(i as int)[0] == text@[i as int]);
        }
        let c = text[i];
        if is_word_char(c) {
            cur.push(lower_char(c));
        } else if cur.len() > 0 {
            let ghost old_out = out@;
            let ghost done = cur@;
            out.push(cur);
            cur = Vec::new();
            proof {
                assert(views_of(out@) =~= views_of(old_out).push(done));
                assert(views_of(old_out).push(done) + spec_scan_tokens(text@.skip(i + 1), cur@)
                    =~= views_of(old_out) + (seq![done] + spec_scan_tokens(
                    text@.skip(i + 1),
                    Seq::empty(),
                )));
            }
        }
    }
    proof {
        assert(text@.skip(n as int) =~= Seq::<char>::empty());
    }
    if cur.len() > 0 {
        let ghost old_out = out@;
        let ghost done = cur@;
        out.push(cur);
        proof {
            assert(views_of(out@) =~= views_of(old_out).push(done));
            assert(views_of(old_out).push(done) =~= views_of(old_out) + seq![done]);
        }
    }
    out
}

/// The weight of the first table entry whose key equals `tok`.
pub open spec fn spec_lookup(table: Seq<(Seq<char>, i64)>, tok: Seq<char>) -> Option<i64>
    decreases table.len(),
{
    if table.len() == 0 {
        None
    } else if table[0].0 == tok {
        Some(table[0].1)
    } else {
        spec_lookup(table.drop_first(), tok)
    }
}

/// Sum, in milli-units, of the table weights of the tokens that the table
/// knows; unknown tokens contribute nothing.
pub open spec fn spec_weight_sum(table: Seq<(Seq<char>, i64)>, toks: Seq<Seq<char>>) -> int
    decreases toks.len(),
{
    if toks.len() == 0 {
        0
    } else {
        spec_weight_sum(table, toks.drop_last()) + match spec_lookup(table, toks.last()) {
            Some(w) => w as int,
            None => 0,
        }
    }
}

/// How many of `toks` the table knows.
pub open spec fn spec_match_count(table: Seq<(Seq<char>, i64)>, toks: Seq<Seq<char>>) -> nat
    decreases toks.len(),
{
    if toks.len() == 0 {
        0
    } else {
        spec_match_count(table, toks.drop_last()) + match spec_lookup(table, toks.last()) {
            Some(_) => 1nat,
            None => 0nat,
        }
    }
}

/// Integer division rounding toward zero, the way the score average is
/// taken.
pub open spec fn spec_div_trunc(a: int, b: int) -> int {
    if a >= 0 {
        a / b
    } else {
        -((-a) / b)
    }
}

/// Clamping to the milli-unit range `[-1000, 1000]`.
pub open spec fn spec_clamp_milli(x: int) -> int {
    if x < -1000 {
        -1000
    } else if x > 1000 {
        1000
    } else {
        x
    }
}

/// The context score of `text` against `table`, in milli-units: the
/// average weight of the known tokens, clamped to `[-1000, 1000]`, and
/// exactly `0` when no token is known.
pub open spec fn spec_context_score(table: Seq<(Seq<char>, i64)>, text: Seq<char>) -> int {
    let toks = spec_tokens(text);
    if spec_match_count(table, toks) == 0 {
        0
    } else {
        spec_clamp_milli(
            spec_div_trunc(
                spec_weight_sum(table, toks),
                spec_match_count(table, toks) as int,
            ),
        )
    }
}

/// All weights of `table` lie in the milli-unit range.
pub open spec fn spec_table_wf(table: Seq<(Seq<char>, i64)>) -> bool {
    forall|i: int| 0 <= i < table.len() ==> -1000 <= (#[trigger] table[i]).1 <= 1000
}

proof fn lemma_lookup_in_range(table: Seq<(Seq<char>, i64)>, tok: Seq<char>)
    requires
        spec_table_wf(table),
    ensures
        match spec_lookup(table, tok) {
            Some(w) => -1000 <= w <= 1000,
            None => true,
        },
    decreases table.len(),
{
    if table.len() > 0 {
        assert(spec_table_wf(table.drop_first())) by {
            assert(forall|i: int|
                0 <= i < table.drop_first().len() ==> #[trigger] table.drop_first()[i] == table[
                    i + 1
                ]);
        }
        lemma_lookup_in_range(table.drop_first(), tok);
    }
}

/// The built-in token weights, in milli-units: productivity tools score
/// high, known distractions score low, a bare browser is near neutral.
pub open spec fn spec_default_weight_table() -> Seq<(Seq<char>, i64)> {
    seq![
        ("code"@, 900i64),
        ("vs"@, 900i64),
        ("studio"@, 900i64),
        ("intellij"@, 900i64),
        ("idea"@, 900i64),
        ("rust"@, 900i64),
        ("py"@, 900i64),
        ("github"@, 800i64),
        ("stackoverflow"@, 800i64),
        ("arxiv"@, 900i64),
        ("slack"@, 500i64),
        ("notion"@, 700i64),
        ("youtube"@, -900i64),
        ("netflix"@, -900i64),
        ("chzzk"@, -900i64),
        ("twitch"@, -900i64),
        ("steam"@, -900i64),
        ("game"@, -900i64),
        ("lol"@, -900i64),
        ("chrome"@, 100i64),
    ]
}

proof fn lemma_no_match_means_count_zero(table: Seq<(Seq<char>, i64)>, toks: Seq<Seq<char>>)
    requires
        forall|i: int| 0 <= i < toks.len() ==> spec_lookup(table, #[trigger] toks[i]) is None,
    ensures
        spec_match_count(table, toks) == 0,
    decreases toks.len(),
{
    if toks.len() > 0 {
        assert(forall|i: int|
            0 <= i < toks.drop_last().len() ==> #[trigger] toks.drop_last()[i] == toks[i]);
        lemma_no_match_means_count_zero(table, toks.drop_last());
        assert(toks.last() == toks[toks.len() - 1]);
    }
}

/// Context neutrality: a text none of whose tokens the table knows scores
/// exactly zero, never a negative default.
pub proof fn lemma_context_neutrality(table: Seq<(Seq<char>, i64)>, text: Seq<char>)
    requires
        forall|i: int|
            0 <= i < spec_tokens(text).len() ==> spec_lookup(
                table,
                #[trigger] spec_tokens(text)[i],
            ) is None,
    ensures
        spec_context_score(table, text) == 0,
{
    lemma_no_match_means_count_zero(table, spec_tokens(text));
}

/// A token weight table: token to weight in milli-units, first entry wins
/// on duplicate keys.
#[derive(Debug)]
pub struct WeightTable {
    entries: Vec<(Vec<char>, i64)>,
}

impl WeightTable {
    /// The table as a sequence of key/weight pairs.
    pub closed spec fn view(&self) -> Seq<(Seq<char>, i64)> {
        self.entries@.map_values(|e: (Vec<char>, i64)| (e.0@, e.1))
    }

    /// Every weight lies in the milli-unit range.
    pub open spec fn wf(&self) -> bool {
        spec_table_wf(self@)
    }

    /// An empty table: no token is known.
    pub fn empty() -> (t: WeightTable)
        ensures
            t@ == Seq::<(Seq<char>, i64)>::empty(),
            t.wf(),
    {
        let t = WeightTable { entries: Vec::new() };
        proof {
            assert(t@ =~= Seq::<(Seq<char>, i64)>::empty());
        }
        t
    }

    /// Appends an entry. Keys are matched verbatim against lowercased
    /// tokens, so a caller that wants its entry to be found passes the key
    /// already lowercased.
    pub fn push_entry(&mut self, key: &str, weight_milli: i64)
        requires
            -1000 <= weight_milli <= 1000,
        ensures
            final(self)@ == old(self)@.push((key@, weight_milli)),
            old(self).wf() ==> final(self).wf(),
    {
        let kv = to_chars(key);
        self.entries.push((kv, weight_milli));
        proof {
            assert(final(self)@ =~= old(self)@.push((key@, weight_milli)));
        }
    }

    /// The built-in table of [`spec_default_weight_table`].
    pub fn default_table() -> (t: WeightTable)
        ensures
            t@ == spec_default_weight_table(),
            t.wf(),
    {
        let mut t = WeightTable::empty();
        t.push_entry("code", 900);
        t.push_entry("vs", 900);
        t.push_entry("studio", 900);
        t.push_entry("intellij", 900);
        t.push_entry("idea", 900);
        t.push_entry("rust", 900);
        t.push_entry("py", 900);
        t.push_entry("github", 800);
        t.push_entry("stackoverflow", 800);
        t.push_entry("arxiv", 900);
        t.push_entry("slack", 500);
        t.push_entry("notion", 700);
        t.push_entry("youtube", -900);
        t.push_entry("netflix", -900);
        t.push_entry("chzzk", -900);
        t.push_entry("twitch", -900);
        t.push_entry("steam", -900);
        t.push_entry("game", -900);
        t.push_entry("lol", -900);
        t.push_entry("chrome", 100);
        proof {
            assert(t@ =~= spec_default_weight_table());
        }
        t
    }

    /// The weight of the first entry whose key is `tok`, if any.
    pub fn lookup(&self, tok: &Vec<char>) -> (r: Option<i64>)
        ensures
            r == spec_lookup(self@, tok@),
    {
        let n = self.entries.len();
        proof {
            assert(self@.skip(0) =~= self@);
        }
        for i in 0..n
            invariant
                n == self.entries.len(),
                spec_lookup(self@, tok@) == spec_lookup(self@.skip(i as int), tok@),
        {
            proof {
                assert(self@.skip(i as int).drop_first() =~= self@.skip(i + 1));
                assert(self@.skip(i as int)[0] == self@[i as int]);
            }
            if chars_eq(&self.entries[i].0, tok) {
                return Some(self.entries[i].1);
            }
        }
        proof {
            assert(self@.skip(n as int) =~= Seq::<(Seq<char>, i64)>::empty());
        }
        None
    }

    /// The context score of `text`, in milli-units: the average weight of
    /// the tokens of `text` that this table knows, rounded toward zero and
    /// clamped to `[-1000, 1000]`; exactly `0` when no token is known.
    pub fn context_score_milli(&self, text: &Vec<char>) -> (score: i64)
        requires
            self.wf(),
        ensures
            score == spec_context_score(self@, text@),
            -1000 <= score <= 1000,
    {
        let toks = tokenize(text);
        let ghost stoks = spec_tokens(text@);
        let mut sum: i128 = 0;
        let mut count: usize = 0;
        let n = toks.len();
        proof {
            assert(stoks.take(0) =~= Seq::<Seq<char>>::empty());
        }
        for j in 0..n
            invariant
                n == toks.len(),
                views_of(toks@) == stoks,
                self.wf(),
                count <= j,
                sum == spec_weight_sum(self@, stoks.take(j as int)),
                count == spec_match_count(self@, stoks.take(j as int)),
                -1000 * count <= sum <= 1000 * count,
        {
            proof {
                assert(views_of(toks@)[j as int] == toks@[j as int]@);
                assert(stoks.take(j + 1).drop_last() =~= stoks.take(j as int));
                assert(stoks.take(j + 1).last() == stoks[j as int]);
                lemma_lookup_in_range(self@, stoks[j as int]);
            }
            match self.lookup(&toks[j]) {
                Some(w) => {
                    sum = sum + w as i128;
                    count = count + 1;
                },
                None => (),
            }
        }
        proof {
            assert(stoks.take(n as int) =~= stoks);
        }
        if count == 0 {
            return 0;
        }
        let avg: i128 = if sum >= 0 {
            sum / count as i128
        } else {
            -((-sum) / count as i128)
        };
        proof {
            assert(avg == spec_div_trunc(
                spec_weight_sum(self@, stoks),
                spec_match_count(self@, stoks) as int,
            ));
        }
        let clamped: i128 = if avg < -1000 {
            -1000
        } else if avg > 1000 {
            1000
        } else {
            avg
        };
        clamped as i64
    }
}

} // verus!
