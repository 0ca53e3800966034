//! The table of named character references.

use vstd::prelude::*;
use vstd::string::StrSliceExecFns;
use vstd::string::StringExecFns;

verus! {

/// One entry of the table: the name as written (`&amp;`) and what it stands for.
pub type Entry = (Seq<char>, Seq<char>);

/// The replacement of the first entry of `t`, from index `k` on, whose name is `name`.
pub open spec fn lookup_from(t: Seq<Entry>, name: Seq<char>, k: int) -> Option<Seq<char>>
    decreases t.len() - k,
{
    if k < 0 || k >= t.len() {
        None
    } else if t[k].0 == name {
        Some(t[k].1)
    } else {
        lookup_from(t, name, k + 1)
    }
}

/// What the table `t` gives for `name`.
pub open spec fn lookup_in(t: Seq<Entry>, name: Seq<char>) -> Option<Seq<char>> {
    lookup_from(t, name, 0)
}

/// A name is written with a leading `&` and a trailing `;`.
pub open spec fn is_entity_name(name: Seq<char>) -> bool {
    &&& name.len() >= 2
    &&& name[0] == '&'
    &&& name[name.len() - 1] == ';'
}

/// The length of the longest name in `t`; 0 for an empty table.
pub open spec fn max_name_len(t: Seq<Entry>) -> nat
    decreases t.len(),
{
    if t.len() == 0 {
        0
    } else {
        let m = max_name_len(t.drop_last());
        if t.last().0.len() > m {
            t.last().0.len()
        } else {
            m
        }
    }
}

/// No name of `t` is longer than `max_name_len(t)`, and a non-empty table
/// has a name of that length.
pub proof fn lemma_max_name_len(t: Seq<Entry>)
    ensures
        forall|k: int| 0 <= k < t.len() ==> (#[trigger] t[k]).0.len() <= max_name_len(t),
        t.len() > 0 ==> exists|k: int| 0 <= k < t.len() && (#[trigger] t[k]).0.len() == max_name_len(t),
    decreases t.len(),
{
    if t.len() > 0 {
        let u = t.drop_last();
        lemma_max_name_len(u);
        assert forall|k: int| 0 <= k < u.len() implies #[trigger] t[k] == u[k] by {}
        if u.len() > 0 && max_name_len(u) >= t.last().0.len() {
            let k = choose|k: int| 0 <= k < u.len() && (#[trigger] u[k]).0.len() == max_name_len(u);
            assert(t[k] == u[k]);
        } else {
            assert(t[t.len() - 1] == t.last());
        }
    }
}

/// Block one of the table, from `&AElig;` to `&Ograve;`.
pub open spec fn entity_block_one() -> Seq<Entry> {
    seq![
        ("&AElig;"@, "\u{c6}"@),
        ("&Aacute;"@, "\u{c1}"@),
        ("&Acirc;"@, "\u{c2}"@),
        ("&Agrave;"@, "\u{c0}"@),
        ("&Alpha;"@, "\u{391}"@),
        ("&Aring;"@, "\u{c5}"@),
        ("&Atilde;"@, "\u{c3}"@),
        ("&Auml;"@, "\u{c4}"@),
        ("&Beta;"@, "\u{392}"@),
        ("&Ccedil;"@, "\u{c7}"@),
        ("&Chi;"@, "\u{3a7}"@),
        ("&CounterClockwiseContourIntegral;"@, "\u{2233}"@),
        ("&Dagger;"@, "\u{2021}"@),
        ("&Delta;"@, "\u{394}"@),
        ("&ETH;"@, "\u{d0}"@),
        ("&Eacute;"@, "\u{c9}"@),
        ("&Ecirc;"@, "\u{ca}"@),
        ("&Egrave;"@, "\u{c8}"@),
        ("&Epsilon;"@, "\u{395}"@),
        ("&Eta;"@, "\u{397}"@),
        ("&Euml;"@, "\u{cb}"@),
        ("&Gamma;"@, "\u{393}"@),
        ("&Iacute;"@, "\u{cd}"@),
        ("&Icirc;"@, "\u{ce}"@),
        ("&Igrave;"@, "\u{cc}"@),
        ("&Iota;"@, "\u{399}"@),
        ("&Iuml;"@, "\u{cf}"@),
        ("&Kappa;"@, "\u{39a}"@),
        ("&Lambda;"@, "\u{39b}"@),
        ("&Mu;"@, "\u{39c}"@),
        ("&NotEqualTilde;"@, "\u{2242}\u{338}"@),
        ("&Ntilde;"@, "\u{d1}"@),
        ("&Nu;"@, "\u{39d}"@),
        ("&OElig;"@, "\u{152}"@),
        ("&Oacute;"@, "\u{d3}"@),
        ("&Ocirc;"@, "\u{d4}"@),
        ("&Ograve;"@, "\u{d2}"@)
    ]
}

/// Block two of the table, from `&Omega;` to `&asymp;`.
pub open spec fn entity_block_two() -> Seq<Entry> {
    seq![
        ("&Omega;"@, "\u{3a9}"@),
        ("&Omicron;"@, "\u{39f}"@),
        ("&Oslash;"@, "\u{d8}"@),
        ("&Otilde;"@, "\u{d5}"@),
        ("&Ouml;"@, "\u{d6}"@),
        ("&Phi;"@, "\u{3a6}"@),
        ("&Pi;"@, "\u{3a0}"@),
        ("&Prime;"@, "\u{2033}"@),
        ("&Psi;"@, "\u{3a8}"@),
        ("&Rho;"@, "\u{3a1}"@),
        ("&Scaron;"@, "\u{160}"@),
        ("&Sigma;"@, "\u{3a3}"@),
        ("&THORN;"@, "\u{de}"@),
        ("&Tau;"@, "\u{3a4}"@),
        ("&Theta;"@, "\u{398}"@),
        ("&Uacute;"@, "\u{da}"@),
        ("&Ucirc;"@, "\u{db}"@),
        ("&Ugrave;"@, "\u{d9}"@),
        ("&Upsilon;"@, "\u{3a5}"@),
        ("&Uuml;"@, "\u{dc}"@),
        ("&Xi;"@, "\u{39e}"@),
        ("&Yacute;"@, "\u{dd}"@),
        ("&Yuml;"@, "\u{178}"@),
        ("&Zeta;"@, "\u{396}"@),
        ("&aacute;"@, "\u{e1}"@),
        ("&acirc;"@, "\u{e2}"@),
        ("&acute;"@, "\u{b4}"@),
        ("&aelig;"@, "\u{e6}"@),
        ("&agrave;"@, "\u{e0}"@),
        ("&alefsym;"@, "\u{2135}"@),
        ("&alpha;"@, "\u{3b1}"@),
        ("&amp;"@, "&"@),
        ("&and;"@, "\u{2227}"@),
        ("&ang;"@, "\u{2220}"@),
        ("&apos;"@, "'"@),
        ("&aring;"@, "\u{e5}"@),
        ("&asymp;"@, "\u{2248}"@)
    ]
}

/// Block three of the table, from `&atilde;` to `&euro;`.
pub open spec fn entity_block_three() -> Seq<Entry> {
    seq![
        ("&atilde;"@, "\u{e3}"@),
        ("&auml;"@, "\u{e4}"@),
        ("&bdquo;"@, "\u{201e}"@),
        ("&beta;"@, "\u{3b2}"@),
        ("&brvbar;"@, "\u{a6}"@),
        ("&bull;"@, "\u{2022}"@),
        ("&cap;"@, "\u{2229}"@),
        ("&ccedil;"@, "\u{e7}"@),
        ("&cedil;"@, "\u{b8}"@),
        ("&cent;"@, "\u{a2}"@),
        ("&chi;"@, "\u{3c7}"@),
        ("&circ;"@, "\u{2c6}"@),
        ("&clubs;"@, "\u{2663}"@),
        ("&cong;"@, "\u{2245}"@),
        ("&copy;"@, "\u{a9}"@),
        ("&crarr;"@, "\u{21b5}"@),
        ("&cup;"@, "\u{222a}"@),
        ("&curren;"@, "\u{a4}"@),
        ("&dArr;"@, "\u{21d3}"@),
        ("&dagger;"@, "\u{2020}"@),
        ("&darr;"@, "\u{2193}"@),
        ("&deg;"@, "\u{b0}"@),
        ("&delta;"@, "\u{3b4}"@),
        ("&diams;"@, "\u{2666}"@),
        ("&divide;"@, "\u{f7}"@),
        ("&eacute;"@, "\u{e9}"@),
        ("&ecirc;"@, "\u{ea}"@),
        ("&egrave;"@, "\u{e8}"@),
        ("&empty;"@, "\u{2205}"@),
        ("&emsp;"@, "\u{2003}"@),
        ("&ensp;"@, "\u{2002}"@),
        ("&epsilon;"@, "\u{3b5}"@),
        ("&equiv;"@, "\u{2261}"@),
        ("&eta;"@, "\u{3b7}"@),
        ("&eth;"@, "\u{f0}"@),
        ("&euml;"@, "\u{eb}"@),
        ("&euro;"@, "\u{20ac}"@)
    ]
}

/// Block four of the table, from `&exist;` to `&loz;`.
pub open spec fn entity_block_four() -> Seq<Entry> {
    seq![
        ("&exist;"@, "\u{2203}"@),
        ("&fnof;"@, "\u{192}"@),
        ("&forall;"@, "\u{2200}"@),
        ("&frac12;"@, "\u{bd}"@),
        ("&frac14;"@, "\u{bc}"@),
        ("&frac34;"@, "\u{be}"@),
        ("&frasl;"@, "\u{2044}"@),
        ("&gamma;"@, "\u{3b3}"@),
        ("&ge;"@, "\u{2265}"@),
        ("&gt;"@, ">"@),
        ("&hArr;"@, "\u{21d4}"@),
        ("&harr;"@, "\u{2194}"@),
        ("&hearts;"@, "\u{2665}"@),
        ("&hellip;"@, "\u{2026}"@),
        ("&iacute;"@, "\u{ed}"@),
        ("&icirc;"@, "\u{ee}"@),
        ("&iexcl;"@, "\u{a1}"@),
        ("&igrave;"@, "\u{ec}"@),
        ("&image;"@, "\u{2111}"@),
        ("&infin;"@, "\u{221e}"@),
        ("&int;"@, "\u{222b}"@),
        ("&iota;"@, "\u{3b9}"@),
        ("&iquest;"@, "\u{bf}"@),
        ("&isin;"@, "\u{2208}"@),
        ("&iuml;"@, "\u{ef}"@),
        ("&kappa;"@, "\u{3ba}"@),
        ("&lArr;"@, "\u{21d0}"@),
        ("&lambda;"@, "\u{3bb}"@),
        ("&lang;"@, "\u{27e8}"@),
        ("&laquo;"@, "\u{ab}"@),
        ("&larr;"@, "\u{2190}"@),
        ("&lceil;"@, "\u{2308}"@),
        ("&ldquo;"@, "\u{201c}"@),
        ("&le;"@, "\u{2264}"@),
        ("&lfloor;"@, "\u{230a}"@),
        ("&lowast;"@, "\u{2217}"@),
        ("&loz;"@, "\u{25ca}"@)
    ]
}

/// Block five of the table, from `&lrm;` to `&part;`.
pub open spec fn entity_block_five() -> Seq<Entry> {
    seq![
        ("&lrm;"@, "\u{200e}"@),
        ("&lsaquo;"@, "\u{2039}"@),
        ("&lsquo;"@, "\u{2018}"@),
        ("&lt;"@, "<"@),
        ("&macr;"@, "\u{af}"@),
        ("&mdash;"@, "\u{2014}"@),
        ("&micro;"@, "\u{b5}"@),
        ("&middot;"@, "\u{b7}"@),
        ("&minus;"@, "\u{2212}"@),
        ("&mu;"@, "\u{3bc}"@),
        ("&nabla;"@, "\u{2207}"@),
        ("&nbsp;"@, "\u{a0}"@),
        ("&ndash;"@, "\u{2013}"@),
        ("&ne;"@, "\u{2260}"@),
        ("&ni;"@, "\u{220b}"@),
        ("&not;"@, "\u{ac}"@),
        ("&notin;"@, "\u{2209}"@),
        ("&nsub;"@, "\u{2284}"@),
        ("&ntilde;"@, "\u{f1}"@),
        ("&nu;"@, "\u{3bd}"@),
        ("&oacute;"@, "\u{f3}"@),
        ("&ocirc;"@, "\u{f4}"@),
        ("&oelig;"@, "\u{153}"@),
        ("&ograve;"@, "\u{f2}"@),
        ("&oline;"@, "\u{203e}"@),
        ("&omega;"@, "\u{3c9}"@),
        ("&omicron;"@, "\u{3bf}"@),
        ("&oplus;"@, "\u{2295}"@),
        ("&or;"@, "\u{2228}"@),
        ("&ordf;"@, "\u{aa}"@),
        ("&ordm;"@, "\u{ba}"@),
        ("&oslash;"@, "\u{f8}"@),
        ("&otilde;"@, "\u{f5}"@),
        ("&otimes;"@, "\u{2297}"@),
        ("&ouml;"@, "\u{f6}"@),
        ("&para;"@, "\u{b6}"@),
        ("&part;"@, "\u{2202}"@)
    ]
}

/// Block six of the table, from `&permil;` to `&sube;`.
pub open spec fn entity_block_six() -> Seq<Entry> {
    seq![
        ("&permil;"@, "\u{2030}"@),
        ("&perp;"@, "\u{22a5}"@),
        ("&phi;"@, "\u{3c6}"@),
        ("&pi;"@, "\u{3c0}"@),
        ("&piv;"@, "\u{3d6}"@),
        ("&plusmn;"@, "\u{b1}"@),
        ("&pound;"@, "\u{a3}"@),
        ("&prime;"@, "\u{2032}"@),
        ("&prod;"@, "\u{220f}"@),
        ("&prop;"@, "\u{221d}"@),
        ("&psi;"@, "\u{3c8}"@),
        ("&quot;"@, "\""@),
        ("&rArr;"@, "\u{21d2}"@),
        ("&radic;"@, "\u{221a}"@),
        ("&rang;"@, "\u{27e9}"@),
        ("&raquo;"@, "\u{bb}"@),
        ("&rarr;"@, "\u{2192}"@),
        ("&rceil;"@, "\u{2309}"@),
        ("&rdquo;"@, "\u{201d}"@),
        ("&real;"@, "\u{211c}"@),
        ("&reg;"@, "\u{ae}"@),
        ("&rfloor;"@, "\u{230b}"@),
        ("&rho;"@, "\u{3c1}"@),
        ("&rlm;"@, "\u{200f}"@),
        ("&rsaquo;"@, "\u{203a}"@),
        ("&rsquo;"@, "\u{2019}"@),
        ("&sbquo;"@, "\u{201a}"@),
        ("&scaron;"@, "\u{161}"@),
        ("&sdot;"@, "\u{22c5}"@),
        ("&sect;"@, "\u{a7}"@),
        ("&shy;"@, "\u{ad}"@),
        ("&sigma;"@, "\u{3c3}"@),
        ("&sigmaf;"@, "\u{3c2}"@),
        ("&sim;"@, "\u{223c}"@),
        ("&spades;"@, "\u{2660}"@),
        ("&sub;"@, "\u{2282}"@),
        ("&sube;"@, "\u{2286}"@)
    ]
}

/// Block seven of the table, from `&sum;` to `&zwnj;`.
pub open spec fn entity_block_seven() -> Seq<Entry> {
    seq![
        ("&sum;"@, "\u{2211}"@),
        ("&sup1;"@, "\u{b9}"@),
        ("&sup2;"@, "\u{b2}"@),
        ("&sup3;"@, "\u{b3}"@),
        ("&sup;"@, "\u{2283}"@),
        ("&supe;"@, "\u{2287}"@),
        ("&szlig;"@, "\u{df}"@),
        ("&tau;"@, "\u{3c4}"@),
        ("&there4;"@, "\u{2234}"@),
        ("&theta;"@, "\u{3b8}"@),
        ("&thetasym;"@, "\u{3d1}"@),
        ("&thinsp;"@, "\u{2009}"@),
        ("&thorn;"@, "\u{fe}"@),
        ("&tilde;"@, "\u{2dc}"@),
        ("&times;"@, "\u{d7}"@),
        ("&trade;"@, "\u{2122}"@),
        ("&uArr;"@, "\u{21d1}"@),
        ("&uacute;"@, "\u{fa}"@),
        ("&uarr;"@, "\u{2191}"@),
        ("&ucirc;"@, "\u{fb}"@),
        ("&ugrave;"@, "\u{f9}"@),
        ("&uml;"@, "\u{a8}"@),
        ("&upsih;"@, "\u{3d2}"@),
        ("&upsilon;"@, "\u{3c5}"@),
        ("&uuml;"@, "\u{fc}"@),
        ("&weierp;"@, "\u{2118}"@),
        ("&xi;"@, "\u{3be}"@),
        ("&yacute;"@, "\u{fd}"@),
        ("&yen;"@, "\u{a5}"@),
        ("&yuml;"@, "\u{ff}"@),
        ("&zeta;"@, "\u{3b6}"@),
        ("&zwj;"@, "\u{200d}"@),
        ("&zwnj;"@, "\u{200c}"@)
    ]
}

/// `a` comes before `b` in the order of their characters' scalar values,
/// a proper prefix first.
pub open spec fn name_lt(a: Seq<char>, b: Seq<char>) -> bool
    decreases a.len(),
{
    if b.len() == 0 {
        false
    } else if a.len() == 0 {
        true
    } else if a[0] != b[0] {
        (a[0] as u32) < (b[0] as u32)
    } else {
        name_lt(a.drop_first(), b.drop_first())
    }
}

/// Each name of `t` comes before the next.
pub open spec fn names_ascend(t: Seq<Entry>) -> bool {
    forall|k: int| 0 <= k < t.len() - 1 ==> name_lt(#[trigger] t[k].0, t[k + 1].0)
}

/// No name comes before itself.
pub proof fn lemma_name_lt_irreflexive(a: Seq<char>)
    ensures
        !name_lt(a, a),
    decreases a.len(),
{
    if a.len() > 0 {
        lemma_name_lt_irreflexive(a.drop_first());
    }
}

/// The order of names is transitive.
pub proof fn lemma_name_lt_transitive(a: Seq<char>, b: Seq<char>, c: Seq<char>)
    requires
        name_lt(a, b),
        name_lt(b, c),
    ensures
        name_lt(a, c),
    decreases a.len(),
{
    if a.len() > 0 && b.len() > 0 && c.len() > 0 && a[0] == b[0] && b[0] == c[0] {
        lemma_name_lt_transitive(a.drop_first(), b.drop_first(), c.drop_first());
    }
}

/// In a table whose names ascend, each name comes before every later one.
pub proof fn lemma_ascend_ordered(t: Seq<Entry>, i: int, j: int)
    requires
        names_ascend(t),
        0 <= i < j < t.len(),
    ensures
        name_lt(t[i].0, t[j].0),
    decreases j - i,
{
    if i + 1 < j {
        lemma_ascend_ordered(t, i + 1, j);
        lemma_name_lt_transitive(t[i].0, t[i + 1].0, t[j].0);
    }
}

/// In a table whose names ascend, no name appears twice.
pub proof fn lemma_ascend_unique(t: Seq<Entry>)
    requires
        names_ascend(t),
    ensures
        forall|i: int, j: int| 0 <= i < j < t.len() ==> (#[trigger] t[i]).0 != (#[trigger] t[j]).0,
{
    assert forall|i: int, j: int| 0 <= i < j < t.len() implies (#[trigger] t[i]).0 != (#[trigger] t[j]).0 by {
        lemma_ascend_ordered(t, i, j);
        lemma_name_lt_irreflexive(t[i].0);
    }
}

/// Two tables whose names ascend, the last name of the first before the first
/// of the second, join into one whose names ascend.
pub proof fn lemma_ascend_join(a: Seq<Entry>, b: Seq<Entry>)
    requires
        names_ascend(a),
        names_ascend(b),
        a.len() > 0,
        b.len() > 0,
        name_lt(a.last().0, b[0].0),
    ensures
        names_ascend(a + b),
{
    let t = a + b;
    assert forall|k: int| 0 <= k < t.len() - 1 implies name_lt(#[trigger] t[k].0, t[k + 1].0) by {
        if k < a.len() - 1 {
            assert(t[k] == a[k] && t[k + 1] == a[k + 1]);
        } else if k == a.len() - 1 {
            assert(t[k] == a.last() && t[k + 1] == b[0]);
        } else {
            assert(t[k] == b[k - a.len()] && t[k + 1] == b[k + 1 - a.len()]);
        }
    }
}

/// The table that the library carries: each name with its replacement.
pub open spec fn standard_entities() -> Seq<Entry> {
    entity_block_one()
        + entity_block_two()
        + entity_block_three()
        + entity_block_four()
        + entity_block_five()
        + entity_block_six()
        + entity_block_seven()
}

/// The names and replacements held in `v`.
pub open spec fn entries_view(v: Seq<(String, String)>) -> Seq<Entry> {
    v.map_values(|e: (String, String)| (e.0@, e.1@))
}

/// The named character references that the decoder knows, with the length of
/// the longest name.
pub struct Entities {
    entries: Vec<(String, String)>,
    max_html_length: usize,
}

impl View for Entities {
    type V = Seq<Entry>;

    closed spec fn view(&self) -> Seq<Entry> {
        entries_view(self.entries@)
    }
}

impl Entities {
    /// The length, in characters, of the longest name in the table.
    pub closed spec fn max_len(&self) -> nat {
        self.max_html_length as nat
    }

    /// Every name is well formed, and `max_len` is the length of the longest one.
    pub open spec fn wf(&self) -> bool {
        &&& forall|k: int| 0 <= k < self@.len() ==> is_entity_name(#[trigger] self@[k].0)
        &&& forall|i: int, j: int| 0 <= i < j < self@.len() ==> (#[trigger] self@[i]).0 != (#[trigger] self@[j]).0
        &&& self.max_len() == max_name_len(self@)
    }

    /// What the table gives for `name`, which is written with its `&` and `;`.
    pub open spec fn lookup_spec(&self, name: Seq<char>) -> Option<Seq<char>> {
        lookup_in(self@, name)
    }

    /// The length of the longest name in the table.
    pub fn max_name_length(&self) -> (r: usize)
        ensures
            r == self.max_len(),
    {
        self.max_html_length
    }

    /// Looks `name` up in the table.
    pub fn lookup(&self, name: &String) -> (r: Option<&String>)
        ensures
            match r {
                Some(s) => self.lookup_spec(name@) == Some(s@),
                None => self.lookup_spec(name@) is None,
            },
    {
        let mut k: usize = 0;
        while k < self.entries.len()
            invariant
                k <= self.entries@.len(),
                lookup_in(self@, name@) == lookup_from(self@, name@, k as int),
            decreases self.entries@.len() - k,
        {
            if self.entries[k].0 == *name {
                return Some(&self.entries[k].1);
            }
            k = k + 1;
        }
        None
    }
}

/// Appends the entry `name` → `text`.
fn add_entry(entries: &mut Vec<(String, String)>, name: &str, text: &str)
    requires
        is_entity_name(name@),
        forall|k: int| 0 <= k < old(entries)@.len() ==> is_entity_name(#[trigger] old(entries)@[k].0@),
    ensures
        entries_view(final(entries)@) == entries_view(old(entries)@).push((name@, text@)),
        forall|k: int| 0 <= k < final(entries)@.len() ==> is_entity_name(#[trigger] final(entries)@[k].0@),
{
    entries.push((String::from_str(name), String::from_str(text)));
    assert(entries_view(entries@) =~= entries_view(old(entries)@).push((name@, text@)));
}

/// Appends block one of the table, whose names ascend.
#[verifier::rlimit(40)]
fn add_block_one(entries: &mut Vec<(String, String)>)
    requires
        forall|k: int| 0 <= k < old(entries)@.len() ==> is_entity_name(#[trigger] old(entries)@[k].0@),
    ensures
        entries_view(final(entries)@) == entries_view(old(entries)@) + entity_block_one(),
        forall|k: int| 0 <= k < final(entries)@.len() ==> is_entity_name(#[trigger] final(entries)@[k].0@),
        names_ascend(entity_block_one()),
{
    proof {
        reveal_strlit("&AElig;");
        reveal_strlit("&Aacute;");
        reveal_strlit("&Acirc;");
        reveal_strlit("&Agrave;");
        reveal_strlit("&Alpha;");
        reveal_strlit("&Aring;");
        reveal_strlit("&Atilde;");
        reveal_strlit("&Auml;");
        reveal_strlit("&Beta;");
        reveal_strlit("&Ccedil;");
        reveal_strlit("&Chi;");
        reveal_strlit("&CounterClockwiseContourIntegral;");
        reveal_strlit("&Dagger;");
        reveal_strlit("&Delta;");
        reveal_strlit("&ETH;");
        reveal_strlit("&Eacute;");
        reveal_strlit("&Ecirc;");
        reveal_strlit("&Egrave;");
        reveal_strlit("&Epsilon;");
        reveal_strlit("&Eta;");
        reveal_strlit("&Euml;");
        reveal_strlit("&Gamma;");
        reveal_strlit("&Iacute;");
        reveal_strlit("&Icirc;");
        reveal_strlit("&Igrave;");
        reveal_strlit("&Iota;");
        reveal_strlit("&Iuml;");
        reveal_strlit("&Kappa;");
        reveal_strlit("&Lambda;");
        reveal_strlit("&Mu;");
        reveal_strlit("&NotEqualTilde;");
        reveal_strlit("&Ntilde;");
        reveal_strlit("&Nu;");
        reveal_strlit("&OElig;");
        reveal_strlit("&Oacute;");
        reveal_strlit("&Ocirc;");
        reveal_strlit("&Ograve;");
        assert(names_ascend(entity_block_one())) by {
            reveal_with_fuel(name_lt, 12);
        }
    }
    add_entry(entries, "&AElig;", "\u{c6}");
    add_entry(entries, "&Aacute;", "\u{c1}");
    add_entry(entries, "&Acirc;", "\u{c2}");
    add_entry(entries, "&Agrave;", "\u{c0}");
    add_entry(entries, "&Alpha;", "\u{391}");
    add_entry(entries, "&Aring;", "\u{c5}");
    add_entry(entries, "&Atilde;", "\u{c3}");
    add_entry(entries, "&Auml;", "\u{c4}");
    add_entry(entries, "&Beta;", "\u{392}");
    add_entry(entries, "&Ccedil;", "\u{c7}");
    add_entry(entries, "&Chi;", "\u{3a7}");
    add_entry(entries, "&CounterClockwiseContourIntegral;", "\u{2233}");
    add_entry(entries, "&Dagger;", "\u{2021}");
    add_entry(entries, "&Delta;", "\u{394}");
    add_entry(entries, "&ETH;", "\u{d0}");
    add_entry(entries, "&Eacute;", "\u{c9}");
    add_entry(entries, "&Ecirc;", "\u{ca}");
    add_entry(entries, "&Egrave;", "\u{c8}");
    add_entry(entries, "&Epsilon;", "\u{395}");
    add_entry(entries, "&Eta;", "\u{397}");
    add_entry(entries, "&Euml;", "\u{cb}");
    add_entry(entries, "&Gamma;", "\u{393}");
    add_entry(entries, "&Iacute;", "\u{cd}");
    add_entry(entries, "&Icirc;", "\u{ce}");
    add_entry(entries, "&Igrave;", "\u{cc}");
    add_entry(entries, "&Iota;", "\u{399}");
    add_entry(entries, "&Iuml;", "\u{cf}");
    add_entry(entries, "&Kappa;", "\u{39a}");
    add_entry(entries, "&Lambda;", "\u{39b}");
    add_entry(entries, "&Mu;", "\u{39c}");
    add_entry(entries, "&NotEqualTilde;", "\u{2242}\u{338}");
    add_entry(entries, "&Ntilde;", "\u{d1}");
    add_entry(entries, "&Nu;", "\u{39d}");
    add_entry(entries, "&OElig;", "\u{152}");
    add_entry(entries, "&Oacute;", "\u{d3}");
    add_entry(entries, "&Ocirc;", "\u{d4}");
    add_entry(entries, "&Ograve;", "\u{d2}");
    assert(entries_view(entries@) =~= entries_view(old(entries)@) + entity_block_one());
}

/// Appends block two of the table, whose names ascend.
#[verifier::rlimit(40)]
fn add_block_two(entries: &mut Vec<(String, String)>)
    requires
        forall|k: int| 0 <= k < old(entries)@.len() ==> is_entity_name(#[trigger] old(entries)@[k].0@),
    ensures
        entries_view(final(entries)@) == entries_view(old(entries)@) + entity_block_two(),
        forall|k: int| 0 <= k < final(entries)@.len() ==> is_entity_name(#[trigger] final(entries)@[k].0@),
        names_ascend(entity_block_two()),
{
    proof {
        reveal_strlit("&Omega;");
        reveal_strlit("&Omicron;");
        reveal_strlit("&Oslash;");
        reveal_strlit("&Otilde;");
        reveal_strlit("&Ouml;");
        reveal_strlit("&Phi;");
        reveal_strlit("&Pi;");
        reveal_strlit("&Prime;");
        reveal_strlit("&Psi;");
        reveal_strlit("&Rho;");
        reveal_strlit("&Scaron;");
        reveal_strlit("&Sigma;");
        reveal_strlit("&THORN;");
        reveal_strlit("&Tau;");
        reveal_strlit("&Theta;");
        reveal_strlit("&Uacute;");
        reveal_strlit("&Ucirc;");
        reveal_strlit("&Ugrave;");
        reveal_strlit("&Upsilon;");
        reveal_strlit("&Uuml;");
        reveal_strlit("&Xi;");
        reveal_strlit("&Yacute;");
        reveal_strlit("&Yuml;");
        reveal_strlit("&Zeta;");
        reveal_strlit("&aacute;");
        reveal_strlit("&acirc;");
        reveal_strlit("&acute;");
        reveal_strlit("&aelig;");
        reveal_strlit("&agrave;");
        reveal_strlit("&alefsym;");
        reveal_strlit("&alpha;");
        reveal_strlit("&amp;");
        reveal_strlit("&and;");
        reveal_strlit("&ang;");
        reveal_strlit("&apos;");
        reveal_strlit("&aring;");
        reveal_strlit("&asymp;");
        assert(names_ascend(entity_block_two())) by {
            reveal_with_fuel(name_lt, 12);
        }
    }
    add_entry(entries, "&Omega;", "\u{3a9}");
    add_entry(entries, "&Omicron;", "\u{39f}");
    add_entry(entries, "&Oslash;", "\u{d8}");
    add_entry(entries, "&Otilde;", "\u{d5}");
    add_entry(entries, "&Ouml;", "\u{d6}");
    add_entry(entries, "&Phi;", "\u{3a6}");
    add_entry(entries, "&Pi;", "\u{3a0}");
    add_entry(entries, "&Prime;", "\u{2033}");
    add_entry(entries, "&Psi;", "\u{3a8}");
    add_entry(entries, "&Rho;", "\u{3a1}");
    add_entry(entries, "&Scaron;", "\u{160}");
    add_entry(entries, "&Sigma;", "\u{3a3}");
    add_entry(entries, "&THORN;", "\u{de}");
    add_entry(entries, "&Tau;", "\u{3a4}");
    add_entry(entries, "&Theta;", "\u{398}");
    add_entry(entries, "&Uacute;", "\u{da}");
    add_entry(entries, "&Ucirc;", "\u{db}");
    add_entry(entries, "&Ugrave;", "\u{d9}");
    add_entry(entries, "&Upsilon;", "\u{3a5}");
    add_entry(entries, "&Uuml;", "\u{dc}");
    add_entry(entries, "&Xi;", "\u{39e}");
    add_entry(entries, "&Yacute;", "\u{dd}");
    add_entry(entries, "&Yuml;", "\u{178}");
    add_entry(entries, "&Zeta;", "\u{396}");
    add_entry(entries, "&aacute;", "\u{e1}");
    add_entry(entries, "&acirc;", "\u{e2}");
    add_entry(entries, "&acute;", "\u{b4}");
    add_entry(entries, "&aelig;", "\u{e6}");
    add_entry(entries, "&agrave;", "\u{e0}");
    add_entry(entries, "&alefsym;", "\u{2135}");
    add_entry(entries, "&alpha;", "\u{3b1}");
    add_entry(entries, "&amp;", "&");
    add_entry(entries, "&and;", "\u{2227}");
    add_entry(entries, "&ang;", "\u{2220}");
    add_entry(entries, "&apos;", "'");
    add_entry(entries, "&aring;", "\u{e5}");
    add_entry(entries, "&asymp;", "\u{2248}");
    assert(entries_view(entries@) =~= entries_view(old(entries)@) + entity_block_two());
}

/// Appends block three of the table, whose names ascend.
#[verifier::rlimit(40)]
fn add_block_three(entries: &mut Vec<(String, String)>)
    requires
        forall|k: int| 0 <= k < old(entries)@.len() ==> is_entity_name(#[trigger] old(entries)@[k].0@),
    ensures
        entries_view(final(entries)@) == entries_view(old(entries)@) + entity_block_three(),
        forall|k: int| 0 <= k < final(entries)@.len() ==> is_entity_name(#[trigger] final(entries)@[k].0@),
        names_ascend(entity_block_three()),
{
    proof {
        reveal_strlit("&atilde;");
        reveal_strlit("&auml;");
        reveal_strlit("&bdquo;");
        reveal_strlit("&beta;");
        reveal_strlit("&brvbar;");
        reveal_strlit("&bull;");
        reveal_strlit("&cap;");
        reveal_strlit("&ccedil;");
        reveal_strlit("&cedil;");
        reveal_strlit("&cent;");
        reveal_strlit("&chi;");
        reveal_strlit("&circ;");
        reveal_strlit("&clubs;");
        reveal_strlit("&cong;");
        reveal_strlit("&copy;");
        reveal_strlit("&crarr;");
        reveal_strlit("&cup;");
        reveal_strlit("&curren;");
        reveal_strlit("&dArr;");
        reveal_strlit("&dagger;");
        reveal_strlit("&darr;");
        reveal_strlit("&deg;");
        reveal_strlit("&delta;");
        reveal_strlit("&diams;");
        reveal_strlit("&divide;");
        reveal_strlit("&eacute;");
        reveal_strlit("&ecirc;");
        reveal_strlit("&egrave;");
        reveal_strlit("&empty;");
        reveal_strlit("&emsp;");
        reveal_strlit("&ensp;");
        reveal_strlit("&epsilon;");
        reveal_strlit("&equiv;");
        reveal_strlit("&eta;");
        reveal_strlit("&eth;");
        reveal_strlit("&euml;");
        reveal_strlit("&euro;");
        assert(names_ascend(entity_block_three())) by {
            reveal_with_fuel(name_lt, 12);
        }
    }
    add_entry(entries, "&atilde;", "\u{e3}");
    add_entry(entries, "&auml;", "\u{e4}");
    add_entry(entries, "&bdquo;", "\u{201e}");
    add_entry(entries, "&beta;", "\u{3b2}");
    add_entry(entries, "&brvbar;", "\u{a6}");
    add_entry(entries, "&bull;", "\u{2022}");
    add_entry(entries, "&cap;", "\u{2229}");
    add_entry(entries, "&ccedil;", "\u{e7}");
    add_entry(entries, "&cedil;", "\u{b8}");
    add_entry(entries, "&cent;", "\u{a2}");
    add_entry(entries, "&chi;", "\u{3c7}");
    add_entry(entries, "&circ;", "\u{2c6}");
    add_entry(entries, "&clubs;", "\u{2663}");
    add_entry(entries, "&cong;", "\u{2245}");
    add_entry(entries, "&copy;", "\u{a9}");
    add_entry(entries, "&crarr;", "\u{21b5}");
    add_entry(entries, "&cup;", "\u{222a}");
    add_entry(entries, "&curren;", "\u{a4}");
    add_entry(entries, "&dArr;", "\u{21d3}");
    add_entry(entries, "&dagger;", "\u{2020}");
    add_entry(entries, "&darr;", "\u{2193}");
    add_entry(entries, "&deg;", "\u{b0}");
    add_entry(entries, "&delta;", "\u{3b4}");
    add_entry(entries, "&diams;", "\u{2666}");
    add_entry(entries, "&divide;", "\u{f7}");
    add_entry(entries, "&eacute;", "\u{e9}");
    add_entry(entries, "&ecirc;", "\u{ea}");
    add_entry(entries, "&egrave;", "\u{e8}");
    add_entry(entries, "&empty;", "\u{2205}");
    add_entry(entries, "&emsp;", "\u{2003}");
    add_entry(entries, "&ensp;", "\u{2002}");
    add_entry(entries, "&epsilon;", "\u{3b5}");
    add_entry(entries, "&equiv;", "\u{2261}");
    add_entry(entries, "&eta;", "\u{3b7}");
    add_entry(entries, "&eth;", "\u{f0}");
    add_entry(entries, "&euml;", "\u{eb}");
    add_entry(entries, "&euro;", "\u{20ac}");
    assert(entries_view(entries@) =~= entries_view(old(entries)@) + entity_block_three());
}

/// Appends block four of the table, whose names ascend.
#[verifier::rlimit(40)]
fn add_block_four(entries: &mut Vec<(String, String)>)
    requires
        forall|k: int| 0 <= k < old(entries)@.len() ==> is_entity_name(#[trigger] old(entries)@[k].0@),
    ensures
        entries_view(final(entries)@) == entries_view(old(entries)@) + entity_block_four(),
        forall|k: int| 0 <= k < final(entries)@.len() ==> is_entity_name(#[trigger] final(entries)@[k].0@),
        names_ascend(entity_block_four()),
{
    proof {
        reveal_strlit("&exist;");
        reveal_strlit("&fnof;");
        reveal_strlit("&forall;");
        reveal_strlit("&frac12;");
        reveal_strlit("&frac14;");
        reveal_strlit("&frac34;");
        reveal_strlit("&frasl;");
        reveal_strlit("&gamma;");
        reveal_strlit("&ge;");
        reveal_strlit("&gt;");
        reveal_strlit("&hArr;");
        reveal_strlit("&harr;");
        reveal_strlit("&hearts;");
        reveal_strlit("&hellip;");
        reveal_strlit("&iacute;");
        reveal_strlit("&icirc;");
        reveal_strlit("&iexcl;");
        reveal_strlit("&igrave;");
        reveal_strlit("&image;");
        reveal_strlit("&infin;");
        reveal_strlit("&int;");
        reveal_strlit("&iota;");
        reveal_strlit("&iquest;");
        reveal_strlit("&isin;");
        reveal_strlit("&iuml;");
        reveal_strlit("&kappa;");
        reveal_strlit("&lArr;");
        reveal_strlit("&lambda;");
        reveal_strlit("&lang;");
        reveal_strlit("&laquo;");
        reveal_strlit("&larr;");
        reveal_strlit("&lceil;");
        reveal_strlit("&ldquo;");
        reveal_strlit("&le;");
        reveal_strlit("&lfloor;");
        reveal_strlit("&lowast;");
        reveal_strlit("&loz;");
        assert(names_ascend(entity_block_four())) by {
            reveal_with_fuel(name_lt, 12);
        }
    }
    add_entry(entries, "&exist;", "\u{2203}");
    add_entry(entries, "&fnof;", "\u{192}");
    add_entry(entries, "&forall;", "\u{2200}");
    add_entry(entries, "&frac12;", "\u{bd}");
    add_entry(entries, "&frac14;", "\u{bc}");
    add_entry(entries, "&frac34;", "\u{be}");
    add_entry(entries, "&frasl;", "\u{2044}");
    add_entry(entries, "&gamma;", "\u{3b3}");
    add_entry(entries, "&ge;", "\u{2265}");
    add_entry(entries, "&gt;", ">");
    add_entry(entries, "&hArr;", "\u{21d4}");
    add_entry(entries, "&harr;", "\u{2194}");
    add_entry(entries, "&hearts;", "\u{2665}");
    add_entry(entries, "&hellip;", "\u{2026}");
    add_entry(entries, "&iacute;", "\u{ed}");
    add_entry(entries, "&icirc;", "\u{ee}");
    add_entry(entries, "&iexcl;", "\u{a1}");
    add_entry(entries, "&igrave;", "\u{ec}");
    add_entry(entries, "&image;", "\u{2111}");
    add_entry(entries, "&infin;", "\u{221e}");
    add_entry(entries, "&int;", "\u{222b}");
    add_entry(entries, "&iota;", "\u{3b9}");
    add_entry(entries, "&iquest;", "\u{bf}");
    add_entry(entries, "&isin;", "\u{2208}");
    add_entry(entries, "&iuml;", "\u{ef}");
    add_entry(entries, "&kappa;", "\u{3ba}");
    add_entry(entries, "&lArr;", "\u{21d0}");
    add_entry(entries, "&lambda;", "\u{3bb}");
    add_entry(entries, "&lang;", "\u{27e8}");
    add_entry(entries, "&laquo;", "\u{ab}");
    add_entry(entries, "&larr;", "\u{2190}");
    add_entry(entries, "&lceil;", "\u{2308}");
    add_entry(entries, "&ldquo;", "\u{201c}");
    add_entry(entries, "&le;", "\u{2264}");
    add_entry(entries, "&lfloor;", "\u{230a}");
    add_entry(entries, "&lowast;", "\u{2217}");
    add_entry(entries, "&loz;", "\u{25ca}");
    assert(entries_view(entries@) =~= entries_view(old(entries)@) + entity_block_four());
}

/// Appends block five of the table, whose names ascend.
#[verifier::rlimit(40)]
fn add_block_five(entries: &mut Vec<(String, String)>)
    requires
        forall|k: int| 0 <= k < old(entries)@.len() ==> is_entity_name(#[trigger] old(entries)@[k].0@),
    ensures
        entries_view(final(entries)@) == entries_view(old(entries)@) + entity_block_five(),
        forall|k: int| 0 <= k < final(entries)@.len() ==> is_entity_name(#[trigger] final(entries)@[k].0@),
        names_ascend(entity_block_five()),
{
    proof {
        reveal_strlit("&lrm;");
        reveal_strlit("&lsaquo;");
        reveal_strlit("&lsquo;");
        reveal_strlit("&lt;");
        reveal_strlit("&macr;");
        reveal_strlit("&mdash;");
        reveal_strlit("&micro;");
        reveal_strlit("&middot;");
        reveal_strlit("&minus;");
        reveal_strlit("&mu;");
        reveal_strlit("&nabla;");
        reveal_strlit("&nbsp;");
        reveal_strlit("&ndash;");
        reveal_strlit("&ne;");
        reveal_strlit("&ni;");
        reveal_strlit("&not;");
        reveal_strlit("&notin;");
        reveal_strlit("&nsub;");
        reveal_strlit("&ntilde;");
        reveal_strlit("&nu;");
        reveal_strlit("&oacute;");
        reveal_strlit("&ocirc;");
        reveal_strlit("&oelig;");
        reveal_strlit("&ograve;");
        reveal_strlit("&oline;");
        reveal_strlit("&omega;");
        reveal_strlit("&omicron;");
        reveal_strlit("&oplus;");
        reveal_strlit("&or;");
        reveal_strlit("&ordf;");
        reveal_strlit("&ordm;");
        reveal_strlit("&oslash;");
        reveal_strlit("&otilde;");
        reveal_strlit("&otimes;");
        reveal_strlit("&ouml;");
        reveal_strlit("&para;");
        reveal_strlit("&part;");
        assert(names_ascend(entity_block_five())) by {
            reveal_with_fuel(name_lt, 12);
        }
    }
    add_entry(entries, "&lrm;", "\u{200e}");
    add_entry(entries, "&lsaquo;", "\u{2039}");
    add_entry(entries, "&lsquo;", "\u{2018}");
    add_entry(entries, "&lt;", "<");
    add_entry(entries, "&macr;", "\u{af}");
    add_entry(entries, "&mdash;", "\u{2014}");
    add_entry(entries, "&micro;", "\u{b5}");
    add_entry(entries, "&middot;", "\u{b7}");
    add_entry(entries, "&minus;", "\u{2212}");
    add_entry(entries, "&mu;", "\u{3bc}");
    add_entry(entries, "&nabla;", "\u{2207}");
    add_entry(entries, "&nbsp;", "\u{a0}");
    add_entry(entries, "&ndash;", "\u{2013}");
    add_entry(entries, "&ne;", "\u{2260}");
    add_entry(entries, "&ni;", "\u{220b}");
    add_entry(entries, "&not;", "\u{ac}");
    add_entry(entries, "&notin;", "\u{2209}");
    add_entry(entries, "&nsub;", "\u{2284}");
    add_entry(entries, "&ntilde;", "\u{f1}");
    add_entry(entries, "&nu;", "\u{3bd}");
    add_entry(entries, "&oacute;", "\u{f3}");
    add_entry(entries, "&ocirc;", "\u{f4}");
    add_entry(entries, "&oelig;", "\u{153}");
    add_entry(entries, "&ograve;", "\u{f2}");
    add_entry(entries, "&oline;", "\u{203e}");
    add_entry(entries, "&omega;", "\u{3c9}");
    add_entry(entries, "&omicron;", "\u{3bf}");
    add_entry(entries, "&oplus;", "\u{2295}");
    add_entry(entries, "&or;", "\u{2228}");
    add_entry(entries, "&ordf;", "\u{aa}");
    add_entry(entries, "&ordm;", "\u{ba}");
    add_entry(entries, "&oslash;", "\u{f8}");
    add_entry(entries, "&otilde;", "\u{f5}");
    add_entry(entries, "&otimes;", "\u{2297}");
    add_entry(entries, "&ouml;", "\u{f6}");
    add_entry(entries, "&para;", "\u{b6}");
    add_entry(entries, "&part;", "\u{2202}");
    assert(entries_view(entries@) =~= entries_view(old(entries)@) + entity_block_five());
}

/// Appends block six of the table, whose names ascend.
#[verifier::rlimit(40)]
fn add_block_six(entries: &mut Vec<(String, String)>)
    requires
        forall|k: int| 0 <= k < old(entries)@.len() ==> is_entity_name(#[trigger] old(entries)@[k].0@),
    ensures
        entries_view(final(entries)@) == entries_view(old(entries)@) + entity_block_six(),
        forall|k: int| 0 <= k < final(entries)@.len() ==> is_entity_name(#[trigger] final(entries)@[k].0@),
        names_ascend(entity_block_six()),
{
    proof {
        reveal_strlit("&permil;");
        reveal_strlit("&perp;");
        reveal_strlit("&phi;");
        reveal_strlit("&pi;");
        reveal_strlit("&piv;");
        reveal_strlit("&plusmn;");
        reveal_strlit("&pound;");
        reveal_strlit("&prime;");
        reveal_strlit("&prod;");
        reveal_strlit("&prop;");
        reveal_strlit("&psi;");
        reveal_strlit("&quot;");
        reveal_strlit("&rArr;");
        reveal_strlit("&radic;");
        reveal_strlit("&rang;");
        reveal_strlit("&raquo;");
        reveal_strlit("&rarr;");
        reveal_strlit("&rceil;");
        reveal_strlit("&rdquo;");
        reveal_strlit("&real;");
        reveal_strlit("&reg;");
        reveal_strlit("&rfloor;");
        reveal_strlit("&rho;");
        reveal_strlit("&rlm;");
        reveal_strlit("&rsaquo;");
        reveal_strlit("&rsquo;");
        reveal_strlit("&sbquo;");
        reveal_strlit("&scaron;");
        reveal_strlit("&sdot;");
        reveal_strlit("&sect;");
        reveal_strlit("&shy;");
        reveal_strlit("&sigma;");
        reveal_strlit("&sigmaf;");
        reveal_strlit("&sim;");
        reveal_strlit("&spades;");
        reveal_strlit("&sub;");
        reveal_strlit("&sube;");
        assert(names_ascend(entity_block_six())) by {
            reveal_with_fuel(name_lt, 12);
        }
    }
    add_entry(entries, "&permil;", "\u{2030}");
    add_entry(entries, "&perp;", "\u{22a5}");
    add_entry(entries, "&phi;", "\u{3c6}");
    add_entry(entries, "&pi;", "\u{3c0}");
    add_entry(entries, "&piv;", "\u{3d6}");
    add_entry(entries, "&plusmn;", "\u{b1}");
    add_entry(entries, "&pound;", "\u{a3}");
    add_entry(entries, "&prime;", "\u{2032}");
    add_entry(entries, "&prod;", "\u{220f}");
    add_entry(entries, "&prop;", "\u{221d}");
    add_entry(entries, "&psi;", "\u{3c8}");
    add_entry(entries, "&quot;", "\"");
    add_entry(entries, "&rArr;", "\u{21d2}");
    add_entry(entries, "&radic;", "\u{221a}");
    add_entry(entries, "&rang;", "\u{27e9}");
    add_entry(entries, "&raquo;", "\u{bb}");
    add_entry(entries, "&rarr;", "\u{2192}");
    add_entry(entries, "&rceil;", "\u{2309}");
    add_entry(entries, "&rdquo;", "\u{201d}");
    add_entry(entries, "&real;", "\u{211c}");
    add_entry(entries, "&reg;", "\u{ae}");
    add_entry(entries, "&rfloor;", "\u{230b}");
    add_entry(entries, "&rho;", "\u{3c1}");
    add_entry(entries, "&rlm;", "\u{200f}");
    add_entry(entries, "&rsaquo;", "\u{203a}");
    add_entry(entries, "&rsquo;", "\u{2019}");
    add_entry(entries, "&sbquo;", "\u{201a}");
    add_entry(entries, "&scaron;", "\u{161}");
    add_entry(entries, "&sdot;", "\u{22c5}");
    add_entry(entries, "&sect;", "\u{a7}");
    add_entry(entries, "&shy;", "\u{ad}");
    add_entry(entries, "&sigma;", "\u{3c3}");
    add_entry(entries, "&sigmaf;", "\u{3c2}");
    add_entry(entries, "&sim;", "\u{223c}");
    add_entry(entries, "&spades;", "\u{2660}");
    add_entry(entries, "&sub;", "\u{2282}");
    add_entry(entries, "&sube;", "\u{2286}");
    assert(entries_view(entries@) =~= entries_view(old(entries)@) + entity_block_six());
}

/// Appends block seven of the table, whose names ascend.
#[verifier::rlimit(40)]
fn add_block_seven(entries: &mut Vec<(String, String)>)
    requires
        forall|k: int| 0 <= k < old(entries)@.len() ==> is_entity_name(#[trigger] old(entries)@[k].0@),
    ensures
        entries_view(final(entries)@) == entries_view(old(entries)@) + entity_block_seven(),
        forall|k: int| 0 <= k < final(entries)@.len() ==> is_entity_name(#[trigger] final(entries)@[k].0@),
        names_ascend(entity_block_seven()),
{
    proof {
        reveal_strlit("&sum;");
        reveal_strlit("&sup1;");
        reveal_strlit("&sup2;");
        reveal_strlit("&sup3;");
        reveal_strlit("&sup;");
        reveal_strlit("&supe;");
        reveal_strlit("&szlig;");
        reveal_strlit("&tau;");
        reveal_strlit("&there4;");
        reveal_strlit("&theta;");
        reveal_strlit("&thetasym;");
        reveal_strlit("&thinsp;");
        reveal_strlit("&thorn;");
        reveal_strlit("&tilde;");
        reveal_strlit("&times;");
        reveal_strlit("&trade;");
        reveal_strlit("&uArr;");
        reveal_strlit("&uacute;");
        reveal_strlit("&uarr;");
        reveal_strlit("&ucirc;");
        reveal_strlit("&ugrave;");
        reveal_strlit("&uml;");
        reveal_strlit("&upsih;");
        reveal_strlit("&upsilon;");
        reveal_strlit("&uuml;");
        reveal_strlit("&weierp;");
        reveal_strlit("&xi;");
        reveal_strlit("&yacute;");
        reveal_strlit("&yen;");
        reveal_strlit("&yuml;");
        reveal_strlit("&zeta;");
        reveal_strlit("&zwj;");
        reveal_strlit("&zwnj;");
        assert(names_ascend(entity_block_seven())) by {
            reveal_with_fuel(name_lt, 12);
        }
    }
    add_entry(entries, "&sum;", "\u{2211}");
    add_entry(entries, "&sup1;", "\u{b9}");
    add_entry(entries, "&sup2;", "\u{b2}");
    add_entry(entries, "&sup3;", "\u{b3}");
    add_entry(entries, "&sup;", "\u{2283}");
    add_entry(entries, "&supe;", "\u{2287}");
    add_entry(entries, "&szlig;", "\u{df}");
    add_entry(entries, "&tau;", "\u{3c4}");
    add_entry(entries, "&there4;", "\u{2234}");
    add_entry(entries, "&theta;", "\u{3b8}");
    add_entry(entries, "&thetasym;", "\u{3d1}");
    add_entry(entries, "&thinsp;", "\u{2009}");
    add_entry(entries, "&thorn;", "\u{fe}");
    add_entry(entries, "&tilde;", "\u{2dc}");
    add_entry(entries, "&times;", "\u{d7}");
    add_entry(entries, "&trade;", "\u{2122}");
    add_entry(entries, "&uArr;", "\u{21d1}");
    add_entry(entries, "&uacute;", "\u{fa}");
    add_entry(entries, "&uarr;", "\u{2191}");
    add_entry(entries, "&ucirc;", "\u{fb}");
    add_entry(entries, "&ugrave;", "\u{f9}");
    add_entry(entries, "&uml;", "\u{a8}");
    add_entry(entries, "&upsih;", "\u{3d2}");
    add_entry(entries, "&upsilon;", "\u{3c5}");
    add_entry(entries, "&uuml;", "\u{fc}");
    add_entry(entries, "&weierp;", "\u{2118}");
    add_entry(entries, "&xi;", "\u{3be}");
    add_entry(entries, "&yacute;", "\u{fd}");
    add_entry(entries, "&yen;", "\u{a5}");
    add_entry(entries, "&yuml;", "\u{ff}");
    add_entry(entries, "&zeta;", "\u{3b6}");
    add_entry(entries, "&zwj;", "\u{200d}");
    add_entry(entries, "&zwnj;", "\u{200c}");
    assert(entries_view(entries@) =~= entries_view(old(entries)@) + entity_block_seven());
}

/// The last name of block one comes before the first of block two.
proof fn lemma_blocks_one_two_ordered()
    ensures
        name_lt(entity_block_one().last().0, entity_block_two()[0].0),
{
    reveal_strlit("&Ograve;");
    reveal_strlit("&Omega;");
    reveal_with_fuel(name_lt, 12);
}

/// The last name of block two comes before the first of block three.
proof fn lemma_blocks_two_three_ordered()
    ensures
        name_lt(entity_block_two().last().0, entity_block_three()[0].0),
{
    reveal_strlit("&asymp;");
    reveal_strlit("&atilde;");
    reveal_with_fuel(name_lt, 12);
}

/// The last name of block three comes before the first of block four.
proof fn lemma_blocks_three_four_ordered()
    ensures
        name_lt(entity_block_three().last().0, entity_block_four()[0].0),
{
    reveal_strlit("&euro;");
    reveal_strlit("&exist;");
    reveal_with_fuel(name_lt, 12);
}

/// The last name of block four comes before the first of block five.
proof fn lemma_blocks_four_five_ordered()
    ensures
        name_lt(entity_block_four().last().0, entity_block_five()[0].0),
{
    reveal_strlit("&loz;");
    reveal_strlit("&lrm;");
    reveal_with_fuel(name_lt, 12);
}

/// The last name of block five comes before the first of block six.
proof fn lemma_blocks_five_six_ordered()
    ensures
        name_lt(entity_block_five().last().0, entity_block_six()[0].0),
{
    reveal_strlit("&part;");
    reveal_strlit("&permil;");
    reveal_with_fuel(name_lt, 12);
}

/// The last name of block six comes before the first of block seven.
proof fn lemma_blocks_six_seven_ordered()
    ensures
        name_lt(entity_block_six().last().0, entity_block_seven()[0].0),
{
    reveal_strlit("&sube;");
    reveal_strlit("&sum;");
    reveal_with_fuel(name_lt, 12);
}

/// The names of the whole table ascend, given that those of each block do.
proof fn lemma_standard_ascends()
    requires
        names_ascend(entity_block_one()),
        names_ascend(entity_block_two()),
        names_ascend(entity_block_three()),
        names_ascend(entity_block_four()),
        names_ascend(entity_block_five()),
        names_ascend(entity_block_six()),
        names_ascend(entity_block_seven()),
    ensures
        names_ascend(standard_entities()),
{
    lemma_blocks_one_two_ordered();
    assert((entity_block_one()).last() == entity_block_one().last());
    lemma_ascend_join(entity_block_one(), entity_block_two());
    lemma_blocks_two_three_ordered();
    assert((entity_block_one() + entity_block_two()).last() == entity_block_two().last());
    lemma_ascend_join(entity_block_one() + entity_block_two(), entity_block_three());
    lemma_blocks_three_four_ordered();
    assert((entity_block_one() + entity_block_two() + entity_block_three()).last() == entity_block_three().last());
    lemma_ascend_join(entity_block_one() + entity_block_two() + entity_block_three(), entity_block_four());
    lemma_blocks_four_five_ordered();
    assert((entity_block_one() + entity_block_two() + entity_block_three() + entity_block_four()).last() == entity_block_four().last());
    lemma_ascend_join(entity_block_one() + entity_block_two() + entity_block_three() + entity_block_four(), entity_block_five());
    lemma_blocks_five_six_ordered();
    assert((entity_block_one() + entity_block_two() + entity_block_three() + entity_block_four() + entity_block_five()).last() == entity_block_five().last());
    lemma_ascend_join(entity_block_one() + entity_block_two() + entity_block_three() + entity_block_four() + entity_block_five(), entity_block_six());
    lemma_blocks_six_seven_ordered();
    assert((entity_block_one() + entity_block_two() + entity_block_three() + entity_block_four() + entity_block_five() + entity_block_six()).last() == entity_block_six().last());
    lemma_ascend_join(entity_block_one() + entity_block_two() + entity_block_three() + entity_block_four() + entity_block_five() + entity_block_six(), entity_block_seven());
    assert(standard_entities() =~= entity_block_one() + entity_block_two() + entity_block_three() + entity_block_four() + entity_block_five() + entity_block_six() + entity_block_seven());
}

impl Entities {
    /// The table of named character references, with the length of its longest name.
    pub fn new() -> (r: Self)
        ensures
            r.wf(),
            r@ == standard_entities(),
    {
        let mut entries: Vec<(String, String)> = Vec::new();
        assert(entries_view(entries@) =~= Seq::<Entry>::empty());
        add_block_one(&mut entries);
        add_block_two(&mut entries);
        add_block_three(&mut entries);
        add_block_four(&mut entries);
        add_block_five(&mut entries);
        add_block_six(&mut entries);
        add_block_seven(&mut entries);
        assert(entries_view(entries@) =~= standard_entities());
        proof {
            lemma_standard_ascends();
            lemma_ascend_unique(standard_entities());
        }
        let mut r = Entities { entries, max_html_length: 0 };
        let mut k: usize = 0;
        while k < r.entries.len()
            invariant
                k <= r.entries@.len(),
                r@ == standard_entities(),
                forall|m: int| 0 <= m < r@.len() ==> is_entity_name(#[trigger] r@[m].0),
                forall|a: int, b: int| 0 <= a < b < r@.len() ==> (#[trigger] r@[a]).0 != (#[trigger] r@[b]).0,
                r.max_html_length == max_name_len(r@.subrange(0, k as int)),
            decreases r.entries@.len() - k,
        {
            let len = r.entries[k].0.as_str().unicode_len();
            proof {
                let u = r@.subrange(0, k + 1);
                assert(u.drop_last() =~= r@.subrange(0, k as int));
                assert(u.last().0 == r.entries@[k as int].0@);
            }
            if len > r.max_html_length {
                r.max_html_length = len;
            }
            k = k + 1;
        }
        assert(r@.subrange(0, k as int) =~= r@);
        r
    }
}

} // verus!
