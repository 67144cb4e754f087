use vstd::prelude::*;

use crate::texto;

verus! {

// ---------------------------------------------------------------------------
// Specification of the sound-card listing printed by `aplay -l`
// ---------------------------------------------------------------------------
/// The lines of `s`, as `str::lines` yields them: split at `'\n'`, with a
/// `'\r'` right before a `'\n'` dropped, and no empty line after a final `'\n'`.
pub open spec fn lineas(s: Seq<char>) -> Seq<Seq<char>>
    decreases s.len(),
{
    if s.len() == 0 {
        seq![]
    } else {
        let k = texto::busca(s, '\n');
        proof {
            texto::lema_busca(s, '\n');
        }
        seq![linea_hasta(s, k)] + lineas(
            if k < s.len() {
                s.skip(k + 1)
            } else {
                seq![]
            },
        )
    }
}

/// The line that ends at `k`, the index of its `'\n'` or the end of `s`.
pub open spec fn linea_hasta(s: Seq<char>, k: int) -> Seq<char> {
    if k < s.len() && k > 0 && s[k - 1] == '\r' {
        s.take(k - 1)
    } else {
        s.take(k)
    }
}

/// The text `card `, with which each card line of the listing begins.
pub open spec fn prefijo_tarjeta() -> Seq<char> {
    seq!['c', 'a', 'r', 'd', ' ']
}

/// What comes before the first `':'` of a line (all of it where there is none).
pub open spec fn cabeza(l: Seq<char>) -> Seq<char> {
    l.take(texto::busca(l, ':'))
}

/// What comes after the first `':'` of a line (nothing where there is none).
pub open spec fn resto(l: Seq<char>) -> Seq<char> {
    if texto::busca(l, ':') < l.len() {
        l.skip(texto::busca(l, ':') + 1)
    } else {
        seq![]
    }
}

/// The text that should hold the card number.
pub open spec fn texto_numero(l: Seq<char>) -> Seq<char> {
    texto::recortar(texto::quitar_prefijos(cabeza(l), prefijo_tarjeta()))
}

pub open spec fn es_cifra(c: char) -> bool {
    '0' <= c <= '9'
}

/// `s` without a leading `'+'`.
pub open spec fn sin_signo(s: Seq<char>) -> Seq<char> {
    if s.len() > 0 && s[0] == '+' {
        s.drop_first()
    } else {
        s
    }
}

/// Every character of `d` is an ASCII digit.
pub open spec fn todas_cifras(d: Seq<char>) -> bool {
    forall|i: int| 0 <= i < d.len() ==> es_cifra(#[trigger] d[i])
}

/// The number that the decimal digits `d` write.
pub open spec fn valor_cifras(d: Seq<char>) -> int
    decreases d.len(),
{
    if d.len() == 0 {
        0
    } else {
        valor_cifras(d.drop_last()) * 10 + (d.last() as u32 - '0' as u32)
    }
}

/// What `str::parse::<u8>` gives: an optional `'+'`, then at least one ASCII
/// digit and nothing else, of a value that fits in a byte.
pub open spec fn valor_u8(s: Seq<char>) -> Option<u8> {
    let d = sin_signo(s);
    if d.len() > 0 && todas_cifras(d) && valor_cifras(d) <= 255 {
        Some(valor_cifras(d) as u8)
    } else {
        None
    }
}

/// The card's name in the part of the line after the number: what stands
/// between `'['` and `']'`, or else the text before the first `','`, trimmed.
pub open spec fn nombre_tarjeta(r: Seq<char>) -> Seq<char> {
    let a = texto::busca(r, '[');
    let b = texto::busca(r, ']');
    if a < r.len() && b < r.len() {
        r.subrange(a + 1, b)
    } else {
        texto::recortar(r.take(texto::busca(r, ',')))
    }
}

/// The card that a line of the listing describes, if it describes one.
pub open spec fn tarjeta_de_linea(l: Seq<char>) -> Option<(u8, Seq<char>)> {
    if texto::empieza_con(l, prefijo_tarjeta()) {
        match valor_u8(texto_numero(l)) {
            Some(n) => Some((n, nombre_tarjeta(resto(l)))),
            None => None,
        }
    } else {
        None
    }
}

/// A card line whose first `']'` comes before its first `'['`: reading its name
/// would slice the line backwards, which stops the listing.
pub open spec fn linea_invertida(l: Seq<char>) -> bool {
    let r = resto(l);
    &&& texto::empieza_con(l, prefijo_tarjeta())
    &&& valor_u8(texto_numero(l)) is Some
    &&& texto::busca(r, '[') < r.len()
    &&& texto::busca(r, ']') < texto::busca(r, '[')
}

/// The card that each line describes.
pub open spec fn tarjetas_por_linea(ls: Seq<Seq<char>>) -> Seq<Option<(u8, Seq<char>)>> {
    ls.map_values(|l: Seq<char>| tarjeta_de_linea(l))
}

/// The name that `x` gives card `k`, where it describes card `k`.
pub open spec fn nombre_si(x: Option<(u8, Seq<char>)>, k: u8) -> Option<Seq<char>> {
    match x {
        Some(par) => if par.0 == k {
            Some(par.1)
        } else {
            None
        },
        None => None,
    }
}

/// The name that the first line describing card `k` gives it.
pub open spec fn primer_nombre(p: Seq<Option<(u8, Seq<char>)>>, k: u8) -> Option<Seq<char>>
    decreases p.len(),
{
    if p.len() == 0 {
        None
    } else if nombre_si(p[0], k) is Some {
        nombre_si(p[0], k)
    } else {
        primer_nombre(p.drop_first(), k)
    }
}

/// Each card number from `k` up, in increasing order, with its first name.
pub open spec fn listado(p: Seq<Option<(u8, Seq<char>)>>, k: int) -> Seq<(u8, Seq<char>)>
    decreases 256 - k,
{
    if k < 0 || k >= 256 {
        seq![]
    } else {
        let aqui = match primer_nombre(p, k as u8) {
            Some(nombre) => seq![(k as u8, nombre)],
            None => seq![],
        };
        aqui + listado(p, k + 1)
    }
}

/// The name given to the single card listed where the listing shows none.
pub open spec fn nombre_por_defecto() -> Seq<char> {
    seq!['d', 'e', 'f', 'a', 'u', 'l', 't']
}

/// The cards of a listing: each card number once, in increasing order, with the
/// name from its first line; card 0 named `default` where there is no card.
pub open spec fn tarjetas_esperadas(texto: Seq<char>) -> Seq<(u8, Seq<char>)> {
    let l = listado(tarjetas_por_linea(lineas(texto)), 0);
    if l.len() == 0 {
        seq![(0u8, nombre_por_defecto())]
    } else {
        l
    }
}

/// Some line of the listing is a card line with its brackets the wrong way round.
pub open spec fn hay_linea_invertida(texto: Seq<char>) -> bool {
    exists|i: int| 0 <= i < lineas(texto).len() && linea_invertida(#[trigger] lineas(texto)[i])
}

/// The cards as numbers and texts.
pub open spec fn vista_tarjetas(v: Seq<(u8, String)>) -> Seq<(u8, Seq<char>)> {
    v.map_values(|e: (u8, String)| (e.0, e.1@))
}

// ---------------------------------------------------------------------------
// Facts
// ---------------------------------------------------------------------------
proof fn lema_primer_nombre_push(p: Seq<Option<(u8, Seq<char>)>>, x: Option<(u8, Seq<char>)>, k: u8)
    ensures
        primer_nombre(p.push(x), k) == if primer_nombre(p, k) is Some {
            primer_nombre(p, k)
        } else {
            nombre_si(x, k)
        },
    decreases p.len(),
{
    if p.len() > 0 {
        let q = p.push(x);
        assert(q[0] == p[0]);
        assert(q.drop_first() == p.drop_first().push(x));
        lema_primer_nombre_push(p.drop_first(), x, k);
        if nombre_si(p[0], k) is Some {
            assert(primer_nombre(q, k) == nombre_si(p[0], k));
            assert(primer_nombre(p, k) == nombre_si(p[0], k));
        } else {
            assert(primer_nombre(q, k) == primer_nombre(q.drop_first(), k));
            assert(primer_nombre(p, k) == primer_nombre(p.drop_first(), k));
        }
    } else {
        let q = p.push(x);
        assert(q.drop_first() =~= Seq::<Option<(u8, Seq<char>)>>::empty());
        assert(primer_nombre(q.drop_first(), k) is None);
        assert(q[0] == x);
    }
}

/// The text after `k`, where `k` is the end of the first line, has the other lines.
proof fn lema_lineas_paso(s: Seq<char>)
    requires
        s.len() > 0,
    ensures
        lineas(s) == seq![linea_hasta(s, texto::busca(s, '\n'))] + lineas(
            if texto::busca(s, '\n') < s.len() {
                s.skip(texto::busca(s, '\n') + 1)
            } else {
                seq![]
            },
        ),
{
}

/// `valor_cifras` capped at 256, as the parser accumulates it.
spec fn valor_tope(d: Seq<char>) -> int
    decreases d.len(),
{
    if d.len() == 0 {
        0
    } else {
        let v = valor_tope(d.drop_last()) * 10 + (d.last() as u32 - '0' as u32);
        if v > 256 {
            256
        } else {
            v
        }
    }
}

proof fn lema_valor_tope(d: Seq<char>)
    requires
        forall|i: int| 0 <= i < d.len() ==> es_cifra(#[trigger] d[i]),
    ensures
        valor_cifras(d) >= 0,
        valor_tope(d) == if valor_cifras(d) > 256 {
            256
        } else {
            valor_cifras(d)
        },
    decreases d.len(),
{
    if d.len() > 0 {
        let e = d.drop_last();
        assert forall|i: int| 0 <= i < e.len() implies es_cifra(#[trigger] e[i]) by {
            assert(e[i] == d[i]);
        }
        lema_valor_tope(e);
        assert(es_cifra(d[d.len() - 1]));
    }
}

// ---------------------------------------------------------------------------
// Executable parser
// ---------------------------------------------------------------------------
/// The number written by `s`, as `str::parse::<u8>` reads it.
pub fn leer_u8(s: &Vec<char>) -> (r: Option<u8>)
    ensures
        r == valor_u8(s@),
{
    let mut i: usize = 0;
    if s.len() > 0 && s[0] == '+' {
        i = 1;
    }
    let ghost d = sin_signo(s@);
    assert(d == s@.skip(i as int));
    if i == s.len() {
        return None;
    }
    let ghost ini = i;
    let mut acc: u32 = 0;
    while i < s.len()
        invariant
            ini <= i <= s.len(),
            d == sin_signo(s@),
            d == s@.skip(ini as int),
            forall|j: int| 0 <= j < i - ini ==> es_cifra(#[trigger] d[j]),
            acc == valor_tope(d.take(i - ini)),
            acc <= 256,
        decreases s.len() - i,
    {
        let c = s[i];
        if !('0' <= c && c <= '9') {
            assert(!es_cifra(d[i - ini]));
            assert(!todas_cifras(d));
            return None;
        }
        let x = (c as u32) - ('0' as u32);
        let nuevo = acc * 10 + x;
        acc = if nuevo > 256 {
            256
        } else {
            nuevo
        };
        i += 1;
        assert(d.take(i - ini).drop_last() == d.take(i - 1 - ini));
    }
    assert(d.take(i - ini) == d);
    proof {
        lema_valor_tope(d);
    }
    if acc <= 255 {
        Some(acc as u8)
    } else {
        None
    }
}

/// The number text and the rest of a line, split at its first `':'`.
fn partes_de_linea(l: &Vec<char>) -> (r: (Vec<char>, Vec<char>))
    ensures
        r.0@ == texto_numero(l@),
        r.1@ == resto(l@),
{
    let prefijo = vec!['c', 'a', 'r', 'd', ' '];
    assert(prefijo@ == prefijo_tarjeta());
    let k = texto::buscar(l, ':');
    let cab = texto::copiar(l, 0, k);
    let res = if k < l.len() {
        texto::copiar(l, k + 1, l.len())
    } else {
        Vec::new()
    };
    assert(cab@ == cabeza(l@));
    let sin_prefijo = texto::quitar_prefijos_vec(&cab, &prefijo);
    let num = texto::recortar_vec(&sin_prefijo);
    (num, res)
}

/// Whether `l` begins with `card `.
fn es_linea_de_tarjeta(l: &Vec<char>) -> (r: bool)
    ensures
        r == texto::empieza_con(l@, prefijo_tarjeta()),
{
    let prefijo = vec!['c', 'a', 'r', 'd', ' '];
    assert(prefijo@ == prefijo_tarjeta());
    assert(l@.skip(0) == l@);
    texto::coincide_en(l, 0, &prefijo)
}

/// The card name in the rest `r` of a line whose brackets are not the wrong way round.
fn nombre_de_resto(r: &Vec<char>) -> (n: Vec<char>)
    requires
        !(texto::busca(r@, '[') < r@.len() && texto::busca(r@, ']') < texto::busca(r@, '[')),
    ensures
        n@ == nombre_tarjeta(r@),
{
    let a = texto::buscar(r, '[');
    let b = texto::buscar(r, ']');
    if a < r.len() && b < r.len() {
        proof {
            texto::lema_busca(r@, '[');
            texto::lema_busca(r@, ']');
        }
        texto::copiar(r, a + 1, b)
    } else {
        let coma = texto::buscar(r, ',');
        let antes = texto::copiar(r, 0, coma);
        texto::recortar_vec(&antes)
    }
}

/// The card that the line `l` describes, where it is not a reversed-brackets line.
pub fn tarjeta_de_linea_exec(l: &Vec<char>) -> (r: Option<(u8, Vec<char>)>)
    requires
        !linea_invertida(l@),
    ensures
        match r {
            Some((n, nombre)) => tarjeta_de_linea(l@) == Some((n, nombre@)),
            None => tarjeta_de_linea(l@) is None,
        },
{
    if !es_linea_de_tarjeta(l) {
        return None;
    }
    let (num, res) = partes_de_linea(l);
    match leer_u8(&num) {
        None => None,
        Some(n) => {
            let nombre = nombre_de_resto(&res);
            Some((n, nombre))
        },
    }
}

/// The sound cards in the text that `aplay -l` printed: each card number once,
/// in increasing order, with the name from its first line, or card 0 named
/// `default` where the text lists none. `None` where a card line has its
/// brackets the wrong way round (`]` before `[`), on which the listing stops.
pub fn tarjetas_de_aplay(texto_aplay: &str) -> (r: Option<Vec<(u8, String)>>)
    ensures
        r is None <==> hay_linea_invertida(texto_aplay@),
        r matches Some(v) ==> vista_tarjetas(v@) == tarjetas_esperadas(texto_aplay@),
{
    let v = texto::caracteres(texto_aplay);
    let mut tabla: Vec<Option<Vec<char>>> = Vec::new();
    let mut k: usize = 0;
    while k < 256
        invariant
            k <= 256,
            tabla@.len() == k,
            forall|j: int| 0 <= j < k ==> tabla@[j] is None,
        decreases 256 - k,
    {
        tabla.push(None);
        k += 1;
    }
    let ghost mut hechas: Seq<Seq<char>> = seq![];
    let mut pos: usize = 0;
    assert(v@.skip(0) == v@);
    while pos < v.len()
        invariant
            pos <= v.len(),
            v@ == texto_aplay@,
            lineas(v@) == hechas + lineas(v@.skip(pos as int)),
            tabla@.len() == 256,
            forall|j: int| 0 <= j < hechas.len() ==> !linea_invertida(#[trigger] hechas[j]),
            forall|j: int|
                0 <= j < 256 ==> match #[trigger] tabla@[j] {
                    Some(nombre) => primer_nombre(tarjetas_por_linea(hechas), j as u8) == Some(
                        nombre@,
                    ),
                    None => primer_nombre(tarjetas_por_linea(hechas), j as u8) is None,
                },
        decreases v.len() - pos,
    {
        let ghost s = v@.skip(pos as int);
        let fin_nl = texto::buscar_desde(&v, '\n', pos);
        proof {
            texto::lema_busca_resto(v@, '\n', pos as int);
            texto::lema_busca(s, '\n');
            lema_lineas_paso(s);
        }
        let mut fin = fin_nl;
        if fin_nl < v.len() && fin_nl > pos && v[fin_nl - 1] == '\r' {
            fin = fin_nl - 1;
        }
        let linea = texto::copiar(&v, pos, fin);
        assert(linea@ == linea_hasta(s, texto::busca(s, '\n')));
        let ghost siguiente: Seq<char> = if fin_nl < v.len() {
            s.skip(texto::busca(s, '\n') + 1)
        } else {
            seq![]
        };
        let nueva_pos = if fin_nl < v.len() {
            fin_nl + 1
        } else {
            v.len()
        };
        assert(siguiente == v@.skip(nueva_pos as int));
        assert(lineas(v@) == hechas.push(linea@) + lineas(v@.skip(nueva_pos as int)));
        if linea_invertida_exec(&linea) {
            assert(lineas(v@)[hechas.len() as int] == linea@);
            return None;
        }
        let ghost anteriores = tarjetas_por_linea(hechas);
        assert(tarjetas_por_linea(hechas.push(linea@)) == anteriores.push(
            tarjeta_de_linea(linea@),
        ));
        match tarjeta_de_linea_exec(&linea) {
            Some((n, nombre)) => {
                let ya = tabla[n as usize].is_some();
                if !ya {
                    tabla.set(n as usize, Some(nombre));
                }
                proof {
                    assert forall|j: int| 0 <= j < 256 implies match #[trigger] tabla@[j] {
                        Some(nm) => primer_nombre(anteriores.push(tarjeta_de_linea(linea@)), j as u8)
                            == Some(nm@),
                        None => primer_nombre(
                            anteriores.push(tarjeta_de_linea(linea@)),
                            j as u8,
                        ) is None,
                    } by {
                        lema_primer_nombre_push(anteriores, tarjeta_de_linea(linea@), j as u8);
                    }
                }
            },
            None => {
                proof {
                    assert forall|j: int| 0 <= j < 256 implies match #[trigger] tabla@[j] {
                        Some(nm) => primer_nombre(anteriores.push(tarjeta_de_linea(linea@)), j as u8)
                            == Some(nm@),
                        None => primer_nombre(
                            anteriores.push(tarjeta_de_linea(linea@)),
                            j as u8,
                        ) is None,
                    } by {
                        lema_primer_nombre_push(anteriores, tarjeta_de_linea(linea@), j as u8);
                    }
                }
            },
        }
        proof {
            hechas = hechas.push(linea@);
        }
        pos = nueva_pos;
    }
    assert(v@.skip(pos as int) == Seq::<char>::empty());
    assert(lineas(v@) == hechas);
    let ghost p = tarjetas_por_linea(hechas);
    let mut salida: Vec<(u8, String)> = Vec::new();
    let mut k: usize = 0;
    while k < 256
        invariant
            k <= 256,
            tabla@.len() == 256,
            listado(p, 0) == vista_tarjetas(salida@) + listado(p, k as int),
            forall|j: int|
                0 <= j < 256 ==> match #[trigger] tabla@[j] {
                    Some(nombre) => primer_nombre(p, j as u8) == Some(nombre@),
                    None => primer_nombre(p, j as u8) is None,
                },
        decreases 256 - k,
    {
        let ghost antes = vista_tarjetas(salida@);
        match &tabla[k] {
            Some(nombre) => {
                let nombre_s = texto::cadena_de(nombre);
                salida.push((k as u8, nombre_s));
                assert(vista_tarjetas(salida@) == antes.push((k as u8, nombre@)));
            },
            None => {},
        }
        k += 1;
    }
    assert(hay_linea_invertida(texto_aplay@) ==> false) by {
        if hay_linea_invertida(texto_aplay@) {
            let i = choose|i: int|
                0 <= i < lineas(texto_aplay@).len() && linea_invertida(#[trigger] lineas(texto_aplay@)[i]);
            assert(!linea_invertida(hechas[i]));
        }
    }
    if salida.len() == 0 {
        let mut defecto = String::new();
        defecto.push('d');
        defecto.push('e');
        defecto.push('f');
        defecto.push('a');
        defecto.push('u');
        defecto.push('l');
        defecto.push('t');
        let mut r: Vec<(u8, String)> = Vec::new();
        assert(defecto@ == nombre_por_defecto());
        r.push((0u8, defecto));
        assert(vista_tarjetas(r@) =~= seq![(0u8, nombre_por_defecto())]);
        Some(r)
    } else {
        Some(salida)
    }
}

/// Whether the line `l` is a card line with its brackets the wrong way round.
fn linea_invertida_exec(l: &Vec<char>) -> (r: bool)
    ensures
        r == linea_invertida(l@),
{
    if !es_linea_de_tarjeta(l) {
        return false;
    }
    let (num, res) = partes_de_linea(l);
    if leer_u8(&num).is_none() {
        return false;
    }
    let a = texto::buscar(&res, '[');
    let b = texto::buscar(&res, ']');
    a < res.len() && b < a
}

} // verus!
