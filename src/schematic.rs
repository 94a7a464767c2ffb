//! Well-formedness of a frame schematic: a declared column list and layers
//! of feature expressions, each of which names its output column and the
//! columns it reads.

use vstd::prelude::*;
use crate::delimited::{text_eq, texts};
use crate::request::contains_key;

verus! {

/// What a feature expression declares: the column it produces and the
/// columns it reads.
#[derive(Clone, Debug, PartialEq, Eq)]
pub struct FeatureDecl {
    pub output: String,
    pub inputs: Vec<String>,
}

impl View for FeatureDecl {
    type V = (Seq<char>, Seq<Seq<char>>);

    open spec fn view(&self) -> (Seq<char>, Seq<Seq<char>>) {
        (self.output@, texts(self.inputs@))
    }
}

/// Why a schematic was refused.
#[derive(Clone, Copy, Debug, PartialEq, Eq)]
pub enum SchemaError {
    /// Two declared columns share a name.
    DuplicateField,
    /// An expression produces a column that is not declared.
    UndeclaredOutput,
    /// An expression reads a column that is neither raw nor produced by an earlier layer.
    MissingInput,
}

/// The layers of a schematic, as views.
pub open spec fn layers_view(layers: Seq<Vec<FeatureDecl>>) -> Seq<Seq<(Seq<char>, Seq<Seq<char>>)>> {
    layers.map_values(|l: Vec<FeatureDecl>| l@.map_values(|e: FeatureDecl| e@))
}

/// No two names of `f` are equal.
pub open spec fn names_unique(f: Seq<Seq<char>>) -> bool {
    forall|i: int, j: int| 0 <= i < j < f.len() ==> f[i] != f[j]
}

/// The output columns of one layer, in order.
pub open spec fn layer_outputs(layer: Seq<(Seq<char>, Seq<Seq<char>>)>) -> Seq<Seq<char>> {
    layer.map_values(|e: (Seq<char>, Seq<Seq<char>>)| e.0)
}

/// The columns present before layer `i` runs: the raw columns, then the
/// outputs of each earlier layer.
pub open spec fn columns_before(
    raw: Seq<Seq<char>>,
    layers: Seq<Seq<(Seq<char>, Seq<Seq<char>>)>>,
    i: int,
) -> Seq<Seq<char>>
    decreases i,
{
    if i <= 0 {
        raw
    } else {
        columns_before(raw, layers, i - 1) + layer_outputs(layers[i - 1])
    }
}

/// Every input of `e` is among `available`.
pub open spec fn inputs_available(e: (Seq<char>, Seq<Seq<char>>), available: Seq<Seq<char>>) -> bool {
    forall|k: int| 0 <= k < e.1.len() ==> available.contains(#[trigger] e.1[k])
}

/// Expression `e`, run with `available` present, reads only those columns
/// and produces a declared one.
pub open spec fn expression_fits(
    e: (Seq<char>, Seq<Seq<char>>),
    fields: Seq<Seq<char>>,
    available: Seq<Seq<char>>,
) -> bool {
    fields.contains(e.0) && inputs_available(e, available)
}

/// Every expression of the first `n` layers fits.
pub open spec fn layers_fit(
    fields: Seq<Seq<char>>,
    raw: Seq<Seq<char>>,
    layers: Seq<Seq<(Seq<char>, Seq<Seq<char>>)>>,
    n: int,
) -> bool {
    forall|i: int, j: int|
        0 <= i < n && 0 <= j < layers[i].len() ==> expression_fits(
            #[trigger] layers[i][j],
            fields,
            columns_before(raw, layers, i),
        )
}

/// A schematic is well formed when its column names are unique and each
/// expression produces a declared column from columns present before its layer.
pub open spec fn schematic_well_formed(
    fields: Seq<Seq<char>>,
    raw: Seq<Seq<char>>,
    layers: Seq<Seq<(Seq<char>, Seq<Seq<char>>)>>,
) -> bool {
    names_unique(fields) && layers_fit(fields, raw, layers, layers.len() as int)
}

fn check_unique(fields: &Vec<String>) -> (r: bool)
    ensures
        r == names_unique(texts(fields@)),
{
    let n = fields.len();
    let mut i: usize = 0;
    while i < n
        invariant
            n == fields@.len(),
            i <= n,
            forall|a: int, b: int| 0 <= a < b < n && a < i ==> fields@[a]@ != fields@[b]@,
        decreases n - i,
    {
        let mut j: usize = i + 1;
        while j < n
            invariant
                n == fields@.len(),
                i < n,
                i < j <= n,
                forall|a: int, b: int| 0 <= a < b < n && a < i ==> fields@[a]@ != fields@[b]@,
                forall|b: int| i < b < j ==> fields@[i as int]@ != fields@[b]@,
            decreases n - j,
        {
            if text_eq(fields[i].as_str(), fields[j].as_str()) {
                assert(texts(fields@)[i as int] == texts(fields@)[j as int]);
                return false;
            }
            j = j + 1;
        }
        i = i + 1;
    }
    assert forall|a: int, b: int| 0 <= a < b < texts(fields@).len() implies texts(fields@)[a]
        != texts(fields@)[b] by {
        assert(fields@[a]@ != fields@[b]@);
    }
    true
}

fn copy_strings(v: &Vec<String>) -> (r: Vec<String>)
    ensures
        texts(r@) == texts(v@),
{
    let mut out: Vec<String> = Vec::new();
    let mut k: usize = 0;
    while k < v.len()
        invariant
            k <= v@.len(),
            texts(out@) == texts(v@).subrange(0, k as int),
        decreases v@.len() - k,
    {
        let ghost before = texts(out@);
        out.push(v[k].clone());
        assert(texts(out@) =~= before.push(v@[k as int]@));
        assert(texts(v@).subrange(0, k + 1) =~= texts(v@).subrange(0, k as int).push(v@[k as int]@));
        k = k + 1;
    }
    assert(texts(v@).subrange(0, v@.len() as int) =~= texts(v@));
    out
}

/// Checks one expression against the declared columns and the columns present.
fn check_expression(e: &FeatureDecl, fields: &Vec<String>, available: &Vec<String>) -> (r: Result<
    (),
    SchemaError,
>)
    ensures
        r is Ok <==> expression_fits(e@, texts(fields@), texts(available@)),
        r == Err::<(), SchemaError>(SchemaError::UndeclaredOutput) ==> !texts(fields@).contains(
            e@.0,
        ),
        r == Err::<(), SchemaError>(SchemaError::MissingInput) ==> !inputs_available(
            e@,
            texts(available@),
        ),
        !(r == Err::<(), SchemaError>(SchemaError::DuplicateField)),
{
    if !contains_key(fields, e.output.as_str()) {
        return Err(SchemaError::UndeclaredOutput);
    }
    let mut k: usize = 0;
    while k < e.inputs.len()
        invariant
            k <= e.inputs@.len(),
            forall|x: int| 0 <= x < k ==> texts(available@).contains(#[trigger] texts(e.inputs@)[x]),
        decreases e.inputs@.len() - k,
    {
        if !contains_key(available, e.inputs[k].as_str()) {
            assert(!texts(available@).contains(e@.1[k as int]));
            return Err(SchemaError::MissingInput);
        }
        k = k + 1;
    }
    Ok(())
}

/// Checks a schematic: its declared column names `fields`, the raw columns
/// `raw` that every frame starts from, and its layers of expressions.
/// Succeeds exactly on a well-formed schematic; each error names a fault
/// that the schematic has.
pub fn check_schematic(fields: &Vec<String>, raw: &Vec<String>, layers: &Vec<Vec<FeatureDecl>>) -> (r:
    Result<(), SchemaError>)
    ensures
        r is Ok <==> schematic_well_formed(texts(fields@), texts(raw@), layers_view(layers@)),
        r == Err::<(), SchemaError>(SchemaError::DuplicateField) ==> !names_unique(texts(fields@)),
        r == Err::<(), SchemaError>(SchemaError::UndeclaredOutput) ==> exists|i: int, j: int|
            0 <= i < layers@.len() && 0 <= j < layers@[i]@.len() && !texts(fields@).contains(
                #[trigger] layers_view(layers@)[i][j].0,
            ),
        r == Err::<(), SchemaError>(SchemaError::MissingInput) ==> exists|i: int, j: int|
            0 <= i < layers@.len() && 0 <= j < layers@[i]@.len() && !inputs_available(
                #[trigger] layers_view(layers@)[i][j],
                columns_before(texts(raw@), layers_view(layers@), i),
            ),
{
    let ghost f = texts(fields@);
    let ghost lv = layers_view(layers@);
    let ghost rv = texts(raw@);
    if !check_unique(fields) {
        return Err(SchemaError::DuplicateField);
    }
    let mut available = copy_strings(raw);
    let n = layers.len();
    let mut i: usize = 0;
    while i < n
        invariant
            n == layers@.len(),
            lv == layers_view(layers@),
            f == texts(fields@),
            rv == texts(raw@),
            names_unique(f),
            i <= n,
            texts(available@) == columns_before(rv, lv, i as int),
            layers_fit(f, rv, lv, i as int),
        decreases n - i,
    {
        let layer = &layers[i];
        assert(lv[i as int] == layer@.map_values(|e: FeatureDecl| e@));
        let m = layer.len();
        let mut j: usize = 0;
        while j < m
            invariant
                n == layers@.len(),
                i < n,
                lv == layers_view(layers@),
                f == texts(fields@),
                rv == texts(raw@),
                layer == &layers@[i as int],
                m == layer@.len(),
                lv[i as int] == layer@.map_values(|e: FeatureDecl| e@),
                j <= m,
                texts(available@) == columns_before(rv, lv, i as int),
                forall|x: int| 0 <= x < j ==> expression_fits(#[trigger] lv[i as int][x], f, texts(available@)),
            decreases m - j,
        {
            let res = check_expression(&layer[j], fields, &available);
            assert(lv[i as int][j as int] == layer@[j as int]@);
            match res {
                Ok(()) => {},
                Err(e) => {
                    return Err(e);
                },
            }
            j = j + 1;
        }
        assert(layers_fit(f, rv, lv, i + 1)) by {
            assert forall|a: int, b: int| 0 <= a < i + 1 && 0 <= b < lv[a].len() implies expression_fits(
                #[trigger] lv[a][b],
                f,
                columns_before(rv, lv, a),
            ) by {
                if a < i {
                } else {
                    assert(expression_fits(lv[i as int][b], f, texts(available@)));
                }
            }
        }
        let mut x: usize = 0;
        let ghost base = texts(available@);
        while x < m
            invariant
                n == layers@.len(),
                i < n,
                lv == layers_view(layers@),
                layer == &layers@[i as int],
                m == layer@.len(),
                lv[i as int] == layer@.map_values(|e: FeatureDecl| e@),
                x <= m,
                base == columns_before(rv, lv, i as int),
                texts(available@) == base + layer_outputs(lv[i as int]).subrange(0, x as int),
            decreases m - x,
        {
            let ghost before = texts(available@);
            available.push(layer[x].output.clone());
            assert(texts(available@) =~= before.push(layer@[x as int].output@));
            assert(layer_outputs(lv[i as int])[x as int] == layer@[x as int].output@);
            assert(layer_outputs(lv[i as int]).subrange(0, x + 1) =~= layer_outputs(lv[i as int]).subrange(
                0,
                x as int,
            ).push(layer@[x as int].output@));
            x = x + 1;
        }
        assert(layer_outputs(lv[i as int]).subrange(0, m as int) =~= layer_outputs(lv[i as int]));
        assert(columns_before(rv, lv, i + 1) == columns_before(rv, lv, i as int) + layer_outputs(
            lv[i as int],
        ));
        i = i + 1;
    }
    Ok(())
}

} // verus!
