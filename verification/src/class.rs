//! Tolerance class names such as "H7", "g6", "js4" or "ZC3": reading one into its table
//! indices, and writing one back.

use vstd::prelude::*;
use vstd::string::*;
use crate::tables::{
    ascii_upper, deviation_letters, grade_name, grade_str, hole_letter_str, hole_letters,
    shaft_letter_str, NUM_DEVIATIONS, NUM_GRADES,
};
use crate::lookup::Error;

verus! {

/// `c` is one of the ASCII digits 0 to 9.
pub open spec fn is_ascii_digit(c: char) -> bool {
    '0' <= c && c <= '9'
}

/// `c` is an ASCII upper case letter.
pub open spec fn is_ascii_upper(c: char) -> bool {
    'A' <= c && c <= 'Z'
}

/// `c` is an ASCII lower case letter.
pub open spec fn is_ascii_lower(c: char) -> bool {
    'a' <= c && c <= 'z'
}

/// `s` is a deviation part followed by a grade part: the deviation part holds no ASCII digit,
/// the grade part only ASCII digits, and neither is empty.
pub open spec fn splits_class(s: Seq<char>, deviation: Seq<char>, grade: Seq<char>) -> bool {
    &&& s == deviation + grade
    &&& deviation.len() > 0
    &&& grade.len() > 0
    &&& forall|i: int| 0 <= i < deviation.len() ==> !is_ascii_digit(#[trigger] deviation[i])
    &&& forall|i: int| 0 <= i < grade.len() ==> is_ascii_digit(#[trigger] grade[i])
}

/// `part` spells deviation letter `dev`, ignoring ASCII case.
pub open spec fn spells_deviation(part: Seq<char>, dev: int) -> bool {
    let letters = deviation_letters(dev);
    &&& part.len() == letters.len()
    &&& forall|i: int|
        0 <= i < letters.len() ==> #[trigger] part[i] == letters[i] || part[i] == ascii_upper(
            letters[i],
        )
}

/// `s` is the name of the tolerance class of deviation `dev` and grade `grade` (counted from 1
/// for IT01), for a hole when its first letter is upper case and for a shaft otherwise.
pub open spec fn names_class(s: Seq<char>, hole: bool, dev: int, grade: int) -> bool {
    let k = s.len() - grade_name(grade).len();
    &&& 0 <= dev < NUM_DEVIATIONS
    &&& 1 <= grade <= NUM_GRADES
    &&& k > 0
    &&& s.subrange(k, s.len() as int) == grade_name(grade)
    &&& spells_deviation(s.subrange(0, k), dev)
    &&& hole == is_ascii_upper(s[0])
}

/// The tolerance class that `s` names, if it names one: whether it is a hole, its deviation
/// index and its grade index.
pub open spec fn class_of(s: Seq<char>) -> Option<(bool, int, int)> {
    if exists|hole: bool, dev: int, grade: int| names_class(s, hole, dev, grade) {
        Some(choose|hole: bool, dev: int, grade: int| names_class(s, hole, dev, grade))
    } else {
        None
    }
}

/// The name that `class_name` writes for a tolerance class.
pub open spec fn class_spelling(hole: bool, dev: int, grade: int) -> Seq<char> {
    (if hole {
        hole_letters(dev)
    } else {
        deviation_letters(dev)
    }) + grade_name(grade)
}

/// A grade is spelled with one or two ASCII digits.
pub proof fn lemma_grade_name_digits(grade: int)
    requires
        1 <= grade <= NUM_GRADES,
    ensures
        grade_name(grade).len() > 0,
        grade_name(grade).len() <= 2,
        forall|i: int|
            0 <= i < grade_name(grade).len() ==> is_ascii_digit(#[trigger] grade_name(grade)[i]),
{
}

/// A deviation is spelled with one or two ASCII lower case letters, each with an upper case
/// form.
pub proof fn lemma_deviation_letters(dev: int)
    requires
        0 <= dev < NUM_DEVIATIONS,
    ensures
        deviation_letters(dev).len() > 0,
        deviation_letters(dev).len() <= 2,
        forall|i: int|
            0 <= i < deviation_letters(dev).len() ==> is_ascii_lower(
                #[trigger] deviation_letters(dev)[i],
            ) && is_ascii_upper(ascii_upper(deviation_letters(dev)[i])),
{
}


/// Two splits of the same name agree.
pub proof fn lemma_split_unique(s: Seq<char>, d1: Seq<char>, g1: Seq<char>, d2: Seq<char>, g2: Seq<char>)
    requires
        splits_class(s, d1, g1),
        splits_class(s, d2, g2),
    ensures
        d1 == d2,
        g1 == g2,
{
    if d1.len() < d2.len() {
        assert(s[d1.len() as int] == g1[0]);
        assert(s[d1.len() as int] == d2[d1.len() as int]);
    } else if d2.len() < d1.len() {
        assert(s[d2.len() as int] == g2[0]);
        assert(s[d2.len() as int] == d1[d2.len() as int]);
    }
    assert(d1 =~= s.subrange(0, d1.len() as int));
    assert(d2 =~= s.subrange(0, d2.len() as int));
    assert(g1 =~= s.subrange(d1.len() as int, s.len() as int));
    assert(g2 =~= s.subrange(d2.len() as int, s.len() as int));
}

/// A name of a tolerance class splits into its deviation letters and its grade.
pub proof fn lemma_names_class_splits(s: Seq<char>, hole: bool, dev: int, grade: int)
    requires
        names_class(s, hole, dev, grade),
    ensures
        splits_class(
            s,
            s.subrange(0, s.len() - grade_name(grade).len()),
            s.subrange(s.len() - grade_name(grade).len(), s.len() as int),
        ),
{
    let k = s.len() - grade_name(grade).len();
    let d = s.subrange(0, k);
    let g = s.subrange(k, s.len() as int);
    lemma_grade_name_digits(grade);
    lemma_deviation_letters(dev);
    assert(s =~= d + g);
    assert forall|i: int| 0 <= i < d.len() implies !is_ascii_digit(#[trigger] d[i]) by {
        assert(d[i] == deviation_letters(dev)[i] || d[i] == ascii_upper(deviation_letters(dev)[i]));
    }
    assert forall|i: int| 0 <= i < g.len() implies is_ascii_digit(#[trigger] g[i]) by {
        assert(g[i] == grade_name(grade)[i]);
    }
}

proof fn lemma_grade_name_injective(g1: int, g2: int)
    requires
        1 <= g1 <= NUM_GRADES,
        1 <= g2 <= NUM_GRADES,
        grade_name(g1) == grade_name(g2),
    ensures
        g1 == g2,
{
    let a = grade_name(g1);
    let b = grade_name(g2);
    assert(a.len() == b.len());
    assert(a[0] == b[0]);
    if a.len() == 2 {
        assert(a[1] == b[1]);
    }
}

proof fn lemma_deviation_letters_injective(d1: int, d2: int)
    requires
        0 <= d1 < NUM_DEVIATIONS,
        0 <= d2 < NUM_DEVIATIONS,
        deviation_letters(d1) == deviation_letters(d2),
    ensures
        d1 == d2,
{
    let a = deviation_letters(d1);
    let b = deviation_letters(d2);
    assert(a.len() == b.len());
    assert(a[0] == b[0]);
    if a.len() == 2 {
        assert(a[1] == b[1]);
    }
}

proof fn lemma_spells_injective(part: Seq<char>, d1: int, d2: int)
    requires
        0 <= d1 < NUM_DEVIATIONS,
        0 <= d2 < NUM_DEVIATIONS,
        spells_deviation(part, d1),
        spells_deviation(part, d2),
    ensures
        d1 == d2,
{
    let a = deviation_letters(d1);
    let b = deviation_letters(d2);
    lemma_deviation_letters(d1);
    lemma_deviation_letters(d2);
    assert forall|i: int| 0 <= i < a.len() implies a[i] == b[i] by {
        assert(part[i] == a[i] || part[i] == ascii_upper(a[i]));
        assert(part[i] == b[i] || part[i] == ascii_upper(b[i]));
    }
    assert(a =~= b);
    lemma_deviation_letters_injective(d1, d2);
}

/// A name names at most one tolerance class.
pub proof fn lemma_names_class_unique(
    s: Seq<char>,
    h1: bool,
    d1: int,
    g1: int,
    h2: bool,
    d2: int,
    g2: int,
)
    requires
        names_class(s, h1, d1, g1),
        names_class(s, h2, d2, g2),
    ensures
        h1 == h2,
        d1 == d2,
        g1 == g2,
{
    lemma_names_class_splits(s, h1, d1, g1);
    lemma_names_class_splits(s, h2, d2, g2);
    let k1 = s.len() - grade_name(g1).len();
    let k2 = s.len() - grade_name(g2).len();
    lemma_split_unique(
        s,
        s.subrange(0, k1),
        s.subrange(k1, s.len() as int),
        s.subrange(0, k2),
        s.subrange(k2, s.len() as int),
    );
    lemma_grade_name_injective(g1, g2);
    lemma_spells_injective(s.subrange(0, k1), d1, d2);
}

/// Reading back the name that `class_name` writes gives the same class, and no other.
pub proof fn law_class_name_round_trip(hole: bool, dev: int, grade: int)
    requires
        0 <= dev < NUM_DEVIATIONS,
        1 <= grade <= NUM_GRADES,
    ensures
        names_class(class_spelling(hole, dev, grade), hole, dev, grade),
        forall|h: bool, d: int, g: int|
            #[trigger] names_class(class_spelling(hole, dev, grade), h, d, g) ==> h == hole && d
                == dev && g == grade,
        class_of(class_spelling(hole, dev, grade)) == Some((hole, dev, grade)),
{
    let s = class_spelling(hole, dev, grade);
    let letters = deviation_letters(dev);
    let k = s.len() - grade_name(grade).len();
    lemma_deviation_letters(dev);
    lemma_grade_name_digits(grade);
    assert(s.subrange(k, s.len() as int) =~= grade_name(grade));
    assert(spells_deviation(s.subrange(0, k), dev)) by {
        if hole {
            assert(s.subrange(0, k) =~= hole_letters(dev));
        } else {
            assert(s.subrange(0, k) =~= letters);
        }
    }
    assert(hole == is_ascii_upper(s[0])) by {
        assert(is_ascii_lower(letters[0]));
        if hole {
            assert(s[0] == ascii_upper(letters[0]));
        } else {
            assert(s[0] == letters[0]);
        }
    }
    assert forall|h: bool, d: int, g: int| #[trigger]
        names_class(s, h, d, g) implies h == hole && d == dev && g == grade by {
        lemma_names_class_unique(s, hole, dev, grade, h, d, g);
    }
}

/// The characters of a string.
pub fn chars_of(s: &str) -> (v: Vec<char>)
    ensures
        v@ == s@,
{
    let n = s.unicode_len();
    let mut v: Vec<char> = Vec::new();
    let mut i: usize = 0;
    while i < n
        invariant
            i <= n,
            n == s@.len(),
            v@ == s@.subrange(0, i as int),
        decreases n - i,
    {
        v.push(s.get_char(i));
        i += 1;
        assert(v@ =~= s@.subrange(0, i as int));
    }
    assert(v@ =~= s@);
    v
}

fn sub_chars(v: &Vec<char>, from: usize, to: usize) -> (r: Vec<char>)
    requires
        from <= to <= v.len(),
    ensures
        r@ == v@.subrange(from as int, to as int),
{
    let mut r: Vec<char> = Vec::new();
    let mut i: usize = from;
    while i < to
        invariant
            from <= i <= to <= v.len(),
            r@ == v@.subrange(from as int, i as int),
        decreases to - i,
    {
        r.push(v[i]);
        i += 1;
        assert(r@ =~= v@.subrange(from as int, i as int));
    }
    r
}

fn is_digit(c: char) -> (r: bool)
    ensures
        r == is_ascii_digit(c),
{
    c >= '0' && c <= '9'
}

/// Split a tolerance class like "H7", "g6", "js4" or "ZC3" into its deviation letters and
/// its grade digits.
pub fn parse_tolerance_class(tolerance_class: &str) -> (r: Result<(Vec<char>, Vec<char>), Error>)
    ensures
        r matches Ok((deviation, grade)) ==> splits_class(tolerance_class@, deviation@, grade@),
        r matches Err(e) ==> (e matches Error::InvalidToleranceClass(t) && t@ == tolerance_class@),
        r is Err ==> forall|d: Seq<char>, g: Seq<char>| !splits_class(tolerance_class@, d, g),
{
    let s = chars_of(tolerance_class);
    let n = s.len();
    let mut k: usize = 0;
    while k < n && !is_digit(s[k])
        invariant
            k <= n == s@.len(),
            forall|j: int| 0 <= j < k ==> !is_ascii_digit(#[trigger] s@[j]),
        decreases n - k,
    {
        k += 1;
    }
    if k == n || k == 0 {
        proof {
            assert forall|d: Seq<char>, g: Seq<char>| !splits_class(s@, d, g) by {
                if splits_class(s@, d, g) {
                    assert(s@[d.len() as int] == g[0]);
                    assert(s@[0] == d[0]);
                }
            }
        }
        return Err(Error::InvalidToleranceClass(tolerance_class.to_owned()));
    }
    let mut j: usize = k;
    while j < n
        invariant
            0 < k <= j <= n == s@.len(),
            s@ == tolerance_class@,
            is_ascii_digit(s@[k as int]),
            forall|i: int| 0 <= i < k ==> !is_ascii_digit(#[trigger] s@[i]),
            forall|i: int| k <= i < j ==> is_ascii_digit(#[trigger] s@[i]),
        decreases n - j,
    {
        if !is_digit(s[j]) {
            proof {
                assert forall|d: Seq<char>, g: Seq<char>| !splits_class(s@, d, g) by {
                    if splits_class(s@, d, g) {
                        assert(s@[d.len() as int] == g[0]);
                        if d.len() > k {
                            assert(s@[k as int] == d[k as int]);
                        }
                        assert(d.len() == k);
                        assert(s@[j as int] == g[j - k]);
                    }
                }
            }
            return Err(Error::InvalidToleranceClass(tolerance_class.to_owned()));
        }
        j += 1;
    }
    let deviation = sub_chars(&s, 0, k);
    let grade = sub_chars(&s, k, n);
    proof {
        assert(s@ =~= deviation@ + grade@);
        assert forall|i: int| 0 <= i < grade@.len() implies is_ascii_digit(#[trigger] grade@[i]) by {
            assert(grade@[i] == s@[k + i]);
        }
    }
    Ok((deviation, grade))
}

/// Does `part` spell deviation letter `dev`, ignoring ASCII case?
fn spells(part: &Vec<char>, dev: usize) -> (r: bool)
    requires
        dev < NUM_DEVIATIONS,
    ensures
        r == spells_deviation(part@, dev as int),
{
    let lower = shaft_letter_str(dev);
    let upper = hole_letter_str(dev);
    let n = lower.unicode_len();
    if part.len() != n {
        return false;
    }
    let mut i: usize = 0;
    while i < n
        invariant
            i <= n == lower@.len() == part@.len(),
            lower@ == deviation_letters(dev as int),
            upper@ == hole_letters(dev as int),
            forall|j: int|
                0 <= j < i ==> #[trigger] part@[j] == lower@[j] || part@[j] == ascii_upper(lower@[j]),
        decreases n - i,
    {
        let c = part[i];
        assert(upper@[i as int] == ascii_upper(lower@[i as int]));
        if c != lower.get_char(i) && c != upper.get_char(i) {
            return false;
        }
        i += 1;
    }
    true
}

/// Index of a deviation letter, ignoring ASCII case.
pub fn dev_idx(deviation: &Vec<char>) -> (r: Option<usize>)
    ensures
        r matches Some(d) ==> d < NUM_DEVIATIONS && spells_deviation(deviation@, d as int),
        r is None ==> forall|d: int| 0 <= d < NUM_DEVIATIONS ==> !spells_deviation(deviation@, d),
{
    let mut d: usize = 0;
    while d < NUM_DEVIATIONS
        invariant
            d <= NUM_DEVIATIONS,
            forall|e: int| 0 <= e < d ==> !spells_deviation(deviation@, e),
        decreases NUM_DEVIATIONS - d,
    {
        if spells(deviation, d) {
            return Some(d);
        }
        d += 1;
    }
    None
}

/// Index of an IT grade, counted from 1 for IT01.
pub fn grade_idx(grade: &Vec<char>) -> (r: Option<usize>)
    ensures
        r matches Some(g) ==> 1 <= g <= NUM_GRADES && grade@ == grade_name(g as int),
        r is None ==> forall|g: int| 1 <= g <= NUM_GRADES ==> grade@ != grade_name(g),
{
    let mut g: usize = 1;
    while g <= NUM_GRADES
        invariant
            1 <= g <= NUM_GRADES + 1,
            forall|e: int| 1 <= e < g ==> grade@ != grade_name(e),
        decreases NUM_GRADES + 1 - g,
    {
        let name = grade_str(g);
        let n = name.unicode_len();
        if grade.len() == n {
            let mut i: usize = 0;
            let mut same = true;
            while i < n
                invariant
                    i <= n == name@.len() == grade@.len(),
                    same == forall|j: int| 0 <= j < i ==> grade@[j] == name@[j],
                decreases n - i,
            {
                if grade[i] != name.get_char(i) {
                    same = false;
                }
                i += 1;
            }
            if same {
                assert(grade@ =~= name@);
                return Some(g);
            }
        }
        g += 1;
    }
    None
}

/// Resolve a tolerance class to whether it is a hole, and its two table indices.
pub fn class_indices(tolerance_class: &str) -> (r: Result<(bool, usize, usize), Error>)
    ensures
        r matches Ok((hole, dev, grade)) ==> class_of(tolerance_class@) == Some(
            (hole, dev as int, grade as int),
        ),
        r matches Ok((hole, dev, grade)) ==> dev < NUM_DEVIATIONS && 1 <= grade <= NUM_GRADES,
        r matches Err(e) ==> (e matches Error::InvalidToleranceClass(t) && t@ == tolerance_class@),
        r is Err ==> class_of(tolerance_class@) is None,
{
    let (deviation, grade) = match parse_tolerance_class(tolerance_class) {
        Ok(parts) => parts,
        Err(e) => {
            proof {
                assert forall|hole: bool, dev: int, grade: int|
                    !names_class(tolerance_class@, hole, dev, grade) by {
                    if names_class(tolerance_class@, hole, dev, grade) {
                        lemma_names_class_splits(tolerance_class@, hole, dev, grade);
                    }
                }
            }
            return Err(e);
        },
    };
    let ghost s = tolerance_class@;
    let dev = dev_idx(&deviation);
    let idx_grade = grade_idx(&grade);
    if dev.is_none() || idx_grade.is_none() {
        proof {
            assert forall|hole: bool, d: int, g: int| !names_class(s, hole, d, g) by {
                if names_class(s, hole, d, g) {
                    lemma_names_class_splits(s, hole, d, g);
                    let k = s.len() - grade_name(g).len();
                    lemma_split_unique(s, deviation@, grade@, s.subrange(0, k), s.subrange(k, s.len() as int));
                }
            }
        }
        return Err(Error::InvalidToleranceClass(tolerance_class.to_owned()));
    }
    let dev = dev.unwrap();
    let idx_grade = idx_grade.unwrap();
    let c = deviation[0];
    let hole = c >= 'A' && c <= 'Z';
    proof {
        assert(deviation@ =~= s.subrange(0, s.len() - grade_name(idx_grade as int).len()));
        assert(grade@ =~= s.subrange(s.len() - grade_name(idx_grade as int).len(), s.len() as int));
        assert(s[0] == deviation@[0]);
        assert(names_class(s, hole, dev as int, idx_grade as int));
        let (h2, d2, g2) = choose|h: bool, d: int, g: int| names_class(s, h, d, g);
        lemma_names_class_unique(s, hole, dev as int, idx_grade as int, h2, d2, g2);
    }
    Ok((hole, dev, idx_grade))
}

/// Render a tolerance class from its table indices, e.g. (true, 10, 9) -> "H7".
pub fn class_name(hole: bool, dev: usize, idx_grade: usize) -> (r: String)
    requires
        dev < NUM_DEVIATIONS,
        1 <= idx_grade <= NUM_GRADES,
    ensures
        r@ == class_spelling(hole, dev as int, idx_grade as int),
{
    let letters = if hole {
        hole_letter_str(dev)
    } else {
        shaft_letter_str(dev)
    };
    let mut name = String::from_str(letters);
    name.append(grade_str(idx_grade));
    name
}

} // verus!
