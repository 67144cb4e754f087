use vstd::prelude::*;

verus! {

broadcast use vstd::string::axiom_spec_iter;

// ---------------------------------------------------------------------------
// std string operations that vstd leaves unspecified
// ---------------------------------------------------------------------------
/// `String::push` appends one character at the end of the string.
pub assume_specification[ String::push ](s: &mut String, c: char)
    ensures
        final(s)@ == old(s)@.push(c),
;

/// `String::pop` removes and returns the last character, or returns `None`
/// and leaves the string alone when it is empty.
pub assume_specification[ String::pop ](s: &mut String) -> (r: Option<char>)
    ensures
        old(s)@.len() == 0 ==> r is None && final(s)@ == old(s)@,
        old(s)@.len() > 0 ==> r == Some(old(s)@.last()) && final(s)@ == old(s)@.drop_last(),
;

/// The Unicode lower-case mapping of a text, as `str::to_lowercase` computes it.
pub uninterp spec fn minusculas(s: Seq<char>) -> Seq<char>;

/// The text with the ASCII capitals `A`–`Z` turned into `a`–`z`.
pub open spec fn minusculas_ascii(s: Seq<char>) -> Seq<char> {
    s.map_values(
        |c: char|
            if 'A' <= c && c <= 'Z' {
                ((c as u32) + 32) as char
            } else {
                c
            },
    )
}

/// Every character of `s` is ASCII.
pub open spec fn es_ascii(s: Seq<char>) -> bool {
    forall|i: int| 0 <= i < s.len() ==> (#[trigger] s[i] as u32) < 128
}

/// `str::to_lowercase` maps every character to its Unicode lower case; the
/// result is a function of the characters of the text alone, named `minusculas`.
/// On ASCII text that mapping turns `A`–`Z` into `a`–`z` and keeps every other
/// character; what it does to other characters is left unsaid here.
pub assume_specification[ str::to_lowercase ](s: &str) -> (r: String)
    ensures
        r@ == minusculas(s@),
        es_ascii(s@) ==> r@ == minusculas_ascii(s@),
;

// ---------------------------------------------------------------------------
// Specifications
// ---------------------------------------------------------------------------
/// Unicode `White_Space`, the set of characters that `str::trim` removes.
pub open spec fn es_espacio(c: char) -> bool {
    let u = c as u32;
    ||| 0x9 <= u <= 0xd
    ||| u == 0x20
    ||| u == 0x85
    ||| u == 0xa0
    ||| u == 0x1680
    ||| 0x2000 <= u <= 0x200a
    ||| u == 0x2028
    ||| u == 0x2029
    ||| u == 0x202f
    ||| u == 0x205f
    ||| u == 0x3000
}

/// `s` begins with `p`.
pub open spec fn empieza_con(s: Seq<char>, p: Seq<char>) -> bool {
    p.len() <= s.len() && s.subrange(0, p.len() as int) == p
}

/// `p` occurs somewhere in `s`.
pub open spec fn contiene(s: Seq<char>, p: Seq<char>) -> bool {
    exists|i: int| 0 <= i && i + p.len() <= s.len() && #[trigger] s.subrange(i, i + p.len()) == p
}

/// Index of the first `c` in `s` at or after `i`, or `s.len()` where there is none.
pub open spec fn busca_desde(s: Seq<char>, c: char, i: int) -> int
    decreases s.len() - i,
{
    if i < 0 || i >= s.len() {
        s.len() as int
    } else if s[i] == c {
        i
    } else {
        busca_desde(s, c, i + 1)
    }
}

/// Index of the first `c` in `s`, or `s.len()`.
pub open spec fn busca(s: Seq<char>, c: char) -> int {
    busca_desde(s, c, 0)
}

/// Index of the first `a` followed by `b` in `s` at or after `i`, or `s.len()`.
pub open spec fn busca_par_desde(s: Seq<char>, a: char, b: char, i: int) -> int
    decreases s.len() - i,
{
    if i < 0 || i + 1 >= s.len() {
        s.len() as int
    } else if s[i] == a && s[i + 1] == b {
        i
    } else {
        busca_par_desde(s, a, b, i + 1)
    }
}

/// First index at or after `i` that does not hold white space.
pub open spec fn salta_espacios(s: Seq<char>, i: int) -> int
    decreases s.len() - i,
{
    if 0 <= i < s.len() && es_espacio(s[i]) {
        salta_espacios(s, i + 1)
    } else {
        i
    }
}

/// Going back from `j`, but not below `lo`, the end of the last non-space character.
pub open spec fn retrocede_espacios(s: Seq<char>, lo: int, j: int) -> int
    decreases j - lo,
{
    if lo < j && es_espacio(s[j - 1]) {
        retrocede_espacios(s, lo, j - 1)
    } else {
        j
    }
}

/// `s` without white space at either end (`str::trim`).
pub open spec fn recortar(s: Seq<char>) -> Seq<char> {
    let a = salta_espacios(s, 0);
    s.subrange(a, retrocede_espacios(s, a, s.len() as int))
}

/// `s` with every leading copy of `p` removed (`str::trim_start_matches`).
pub open spec fn quitar_prefijos(s: Seq<char>, p: Seq<char>) -> Seq<char>
    decreases s.len(),
{
    if p.len() > 0 && empieza_con(s, p) {
        quitar_prefijos(s.skip(p.len() as int), p)
    } else {
        s
    }
}

/// The decimal digit for `d` (`0 <= d < 10`).
pub open spec fn cifra(d: int) -> char {
    if d == 0 {
        '0'
    } else if d == 1 {
        '1'
    } else if d == 2 {
        '2'
    } else if d == 3 {
        '3'
    } else if d == 4 {
        '4'
    } else if d == 5 {
        '5'
    } else if d == 6 {
        '6'
    } else if d == 7 {
        '7'
    } else if d == 8 {
        '8'
    } else {
        '9'
    }
}

/// The decimal notation of `n`, as `to_string` writes an unsigned integer.
pub open spec fn decimal(n: nat) -> Seq<char>
    decreases n,
{
    if n < 10 {
        seq![cifra(n as int)]
    } else {
        decimal(n / 10).push(cifra((n % 10) as int))
    }
}

// ---------------------------------------------------------------------------
// Facts about the specifications
// ---------------------------------------------------------------------------
pub proof fn lema_busca_desde(s: Seq<char>, c: char, i: int)
    requires
        0 <= i <= s.len(),
    ensures
        i <= busca_desde(s, c, i) <= s.len(),
        busca_desde(s, c, i) < s.len() ==> s[busca_desde(s, c, i)] == c,
        forall|j: int| i <= j < busca_desde(s, c, i) ==> s[j] != c,
    decreases s.len() - i,
{
    if i < s.len() && s[i] != c {
        lema_busca_desde(s, c, i + 1);
    }
}

/// Searching from `i` is searching the rest of the text after `i`.
pub proof fn lema_busca_resto(s: Seq<char>, c: char, i: int)
    requires
        0 <= i <= s.len(),
    ensures
        busca_desde(s, c, i) == i + busca(s.skip(i), c),
    decreases s.len() - i,
{
    let t = s.skip(i);
    if i < s.len() && s[i] != c {
        lema_busca_resto(s, c, i + 1);
        assert(t.skip(1) == s.skip(i + 1));
        lema_busca_un_paso(t, c);
    }
}

/// Searching from index 1 is searching the text without its first character.
pub proof fn lema_busca_un_paso(t: Seq<char>, c: char)
    requires
        t.len() > 0,
        t[0] != c,
    ensures
        busca(t, c) == 1 + busca(t.skip(1), c),
{
    lema_desplaza(t, c, 1);
}

proof fn lema_desplaza(t: Seq<char>, c: char, i: int)
    requires
        1 <= i <= t.len(),
    ensures
        busca_desde(t, c, i) == 1 + busca_desde(t.skip(1), c, i - 1),
    decreases t.len() - i,
{
    if i < t.len() && t[i] != c {
        lema_desplaza(t, c, i + 1);
    }
}

pub proof fn lema_busca(s: Seq<char>, c: char)
    ensures
        0 <= busca(s, c) <= s.len(),
        busca(s, c) < s.len() ==> s[busca(s, c)] == c,
        forall|j: int| 0 <= j < busca(s, c) ==> s[j] != c,
{
    lema_busca_desde(s, c, 0);
}

pub proof fn lema_busca_par_desde(s: Seq<char>, a: char, b: char, i: int)
    requires
        0 <= i <= s.len(),
    ensures
        i <= busca_par_desde(s, a, b, i) <= s.len(),
        busca_par_desde(s, a, b, i) < s.len() ==> busca_par_desde(s, a, b, i) + 1 < s.len()
            && s[busca_par_desde(s, a, b, i)] == a && s[busca_par_desde(s, a, b, i) + 1] == b,
    decreases s.len() - i,
{
    if i + 1 < s.len() && !(s[i] == a && s[i + 1] == b) {
        lema_busca_par_desde(s, a, b, i + 1);
    }
}

// ---------------------------------------------------------------------------
// Executable helpers
// ---------------------------------------------------------------------------
/// The characters of `s`, one by one.
pub fn caracteres(s: &str) -> (v: Vec<char>)
    ensures
        v@ == s@,
{
    let mut v: Vec<char> = Vec::new();
    for c in it: s.chars()
        invariant
            v@ == it.seq().take(it.index()),
    {
        v.push(c);
    }
    v
}

/// A `String` holding the characters of `v`.
pub fn cadena_de(v: &Vec<char>) -> (s: String)
    ensures
        s@ == v@,
{
    let mut s = String::new();
    let mut i: usize = 0;
    while i < v.len()
        invariant
            i <= v.len(),
            s@ == v@.take(i as int),
        decreases v.len() - i,
    {
        s.push(v[i]);
        i += 1;
        assert(v@.take(i as int) == v@.take(i - 1).push(v@[i - 1]));
    }
    assert(v@.take(v.len() as int) == v@);
    s
}

/// The characters of `v` from `lo` up to, not including, `hi`.
pub fn copiar(v: &Vec<char>, lo: usize, hi: usize) -> (r: Vec<char>)
    requires
        lo <= hi <= v.len(),
    ensures
        r@ == v@.subrange(lo as int, hi as int),
{
    let mut r: Vec<char> = Vec::new();
    let mut i: usize = lo;
    while i < hi
        invariant
            lo <= i <= hi <= v.len(),
            r@ == v@.subrange(lo as int, i as int),
        decreases hi - i,
    {
        r.push(v[i]);
        i += 1;
        assert(v@.subrange(lo as int, i as int) == v@.subrange(lo as int, i - 1).push(v@[i - 1]));
    }
    r
}

/// Appends the characters of `v` to `s`.
pub fn agregar(s: &mut String, v: &Vec<char>)
    ensures
        final(s)@ == old(s)@ + v@,
{
    let mut i: usize = 0;
    while i < v.len()
        invariant
            i <= v.len(),
            s@ == old(s)@ + v@.take(i as int),
        decreases v.len() - i,
    {
        s.push(v[i]);
        i += 1;
        assert(v@.take(i as int) == v@.take(i - 1).push(v@[i - 1]));
    }
    assert(v@.take(v.len() as int) == v@);
}

/// Appends the text `t` to `s`.
pub fn agregar_str(s: &mut String, t: &str)
    ensures
        final(s)@ == old(s)@ + t@,
{
    let v = caracteres(t);
    agregar(s, &v);
}

/// Whether `c` is white space in the sense of `es_espacio`.
pub fn es_espacio_exec(c: char) -> (r: bool)
    ensures
        r == es_espacio(c),
{
    let u = c as u32;
    (0x9 <= u && u <= 0xd) || u == 0x20 || u == 0x85 || u == 0xa0 || u == 0x1680 || (0x2000 <= u
        && u <= 0x200a) || u == 0x2028 || u == 0x2029 || u == 0x202f || u == 0x205f || u == 0x3000
}

/// Whether the characters of `v` from `i` on begin with `p`.
pub fn coincide_en(v: &Vec<char>, i: usize, p: &Vec<char>) -> (r: bool)
    requires
        i <= v.len(),
    ensures
        r == (i + p.len() <= v.len() && v@.subrange(i as int, i + p.len()) == p@),
        r == empieza_con(v@.skip(i as int), p@),
{
    assert(v@.skip(i as int).len() == v.len() - i);
    if p.len() > v.len() - i {
        return false;
    }
    let mut k: usize = 0;
    while k < p.len()
        invariant
            k <= p.len(),
            i + p.len() <= v.len(),
            forall|j: int| 0 <= j < k ==> v@[i + j] == p@[j],
        decreases p.len() - k,
    {
        if v[i + k] != p[k] {
            assert(v@.subrange(i as int, i + p.len())[k as int] != p@[k as int]);
            assert(v@.skip(i as int).subrange(0, p.len() as int)[k as int] != p@[k as int]);
            return false;
        }
        k += 1;
    }
    assert(v@.subrange(i as int, i + p.len()) == p@);
    assert(v@.skip(i as int).subrange(0, p.len() as int) == p@);
    true
}

/// Whether `s` and `t` hold the same characters.
pub fn iguales(s: &str, t: &str) -> (r: bool)
    ensures
        r == (s@ == t@),
{
    let a = caracteres(s);
    let b = caracteres(t);
    if a.len() != b.len() {
        return false;
    }
    let r = coincide_en(&a, 0, &b);
    assert(a@.subrange(0, b.len() as int) == a@);
    r
}

/// Whether `s` begins with `p`.
pub fn empieza_str(s: &str, p: &str) -> (r: bool)
    ensures
        r == empieza_con(s@, p@),
{
    let a = caracteres(s);
    let b = caracteres(p);
    assert(a@.skip(0) == a@);
    coincide_en(&a, 0, &b)
}

/// Whether `p` occurs in the characters `v`.
pub fn contiene_vec(v: &Vec<char>, p: &Vec<char>) -> (r: bool)
    ensures
        r == contiene(v@, p@),
{
    if p.len() > v.len() {
        return false;
    }
    if p.len() == 0 {
        assert(v@.subrange(0, 0 + p.len()) =~= p@);
        return true;
    }
    let mut i: usize = 0;
    while i <= v.len() - p.len()
        invariant
            0 < p.len() <= v.len(),
            i <= v.len() - p.len() + 1,
            forall|j: int| 0 <= j < i ==> #[trigger] v@.subrange(j, j + p.len()) != p@,
        decreases v.len() - p.len() + 1 - i,
    {
        if coincide_en(v, i, p) {
            return true;
        }
        i += 1;
    }
    false
}

/// Index of the first `c` in `v`, or `v.len()`.
pub fn buscar(v: &Vec<char>, c: char) -> (r: usize)
    ensures
        r == busca(v@, c),
        r <= v.len(),
{
    let mut i: usize = 0;
    while i < v.len()
        invariant
            i <= v.len(),
            busca_desde(v@, c, i as int) == busca(v@, c),
        decreases v.len() - i,
    {
        if v[i] == c {
            return i;
        }
        i += 1;
    }
    i
}

/// Index of the first `c` in `v` at or after `desde`, or `v.len()`.
pub fn buscar_desde(v: &Vec<char>, c: char, desde: usize) -> (r: usize)
    requires
        desde <= v.len(),
    ensures
        r == busca_desde(v@, c, desde as int),
        desde <= r <= v.len(),
{
    let mut i: usize = desde;
    while i < v.len()
        invariant
            desde <= i <= v.len(),
            busca_desde(v@, c, i as int) == busca_desde(v@, c, desde as int),
        decreases v.len() - i,
    {
        if v[i] == c {
            return i;
        }
        i += 1;
    }
    i
}

/// Index of the first `a` followed by `b` in `v`, or `v.len()`.
pub fn buscar_par(v: &Vec<char>, a: char, b: char) -> (r: usize)
    ensures
        r == busca_par_desde(v@, a, b, 0),
        r <= v.len(),
{
    let mut i: usize = 0;
    while v.len() > 0 && i < v.len() - 1
        invariant
            i <= v.len(),
            busca_par_desde(v@, a, b, i as int) == busca_par_desde(v@, a, b, 0),
        decreases v.len() - i,
    {
        if v[i] == a && v[i + 1] == b {
            return i;
        }
        i += 1;
    }
    v.len()
}

/// `v` without white space at either end.
pub fn recortar_vec(v: &Vec<char>) -> (r: Vec<char>)
    ensures
        r@ == recortar(v@),
{
    let mut a: usize = 0;
    while a < v.len() && es_espacio_exec(v[a])
        invariant
            a <= v.len(),
            salta_espacios(v@, a as int) == salta_espacios(v@, 0),
        decreases v.len() - a,
    {
        a += 1;
    }
    let mut b: usize = v.len();
    while b > a && es_espacio_exec(v[b - 1])
        invariant
            a <= b <= v.len(),
            salta_espacios(v@, 0) == a,
            retrocede_espacios(v@, a as int, b as int) == retrocede_espacios(
                v@,
                a as int,
                v.len() as int,
            ),
        decreases b - a,
    {
        b -= 1;
    }
    copiar(v, a, b)
}

/// `v` with every leading copy of `p` removed.
pub fn quitar_prefijos_vec(v: &Vec<char>, p: &Vec<char>) -> (r: Vec<char>)
    ensures
        r@ == quitar_prefijos(v@, p@),
{
    if p.len() == 0 {
        return copiar(v, 0, v.len());
    }
    let mut i: usize = 0;
    assert(v@.skip(0) == v@);
    while coincide_en(v, i, p)
        invariant
            i <= v.len(),
            p.len() > 0,
            quitar_prefijos(v@.skip(i as int), p@) == quitar_prefijos(v@, p@),
        decreases v.len() - i,
    {
        assert(v@.skip(i as int).skip(p.len() as int) == v@.skip(i + p.len()));
        i += p.len();
    }
    assert(v@.skip(0) == v@);
    copiar(v, i, v.len())
}

/// The decimal digit for `d`.
pub fn cifra_exec(d: u64) -> (c: char)
    requires
        d < 10,
    ensures
        c == cifra(d as int),
{
    if d == 0 {
        '0'
    } else if d == 1 {
        '1'
    } else if d == 2 {
        '2'
    } else if d == 3 {
        '3'
    } else if d == 4 {
        '4'
    } else if d == 5 {
        '5'
    } else if d == 6 {
        '6'
    } else if d == 7 {
        '7'
    } else if d == 8 {
        '8'
    } else {
        '9'
    }
}

/// Appends the decimal notation of `n` to `s`.
pub fn agregar_decimal(s: &mut String, n: u64)
    ensures
        final(s)@ == old(s)@ + decimal(n as nat),
    decreases n,
{
    if n < 10 {
        s.push(cifra_exec(n));
    } else {
        agregar_decimal(s, n / 10);
        s.push(cifra_exec(n % 10));
        assert(old(s)@ + decimal((n / 10) as nat) + seq![cifra((n % 10) as int)] == old(s)@
            + decimal(n as nat));
    }
}

} // verus!
