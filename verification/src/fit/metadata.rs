//! Building a [`ModelDescriptor`] from HuggingFace metadata without
//! downloading weights.
//!
//! This is an untrusted-input boundary: every field is parsed defensively and
//! bounded, so an absurd, overflowing, or truncated document is rejected with
//! a structured `models.invalid_metadata` error rather than propagated into
//! sizing arithmetic or panicking. `config.json` gives the structural
//! dimensions (parameter counts are estimated from them);
//! `model.safetensors.index.json` gives the exact total weight bytes.

use vstd::prelude::*;

use super::model::{ModelDescriptor, TensorEntry};
use crate::artifact::{LayoutClass, MoeTopology, QuantDesc};
use crate::error::{DkError, DkErrorView, ErrorCode, ErrorContext, error_new, error_with_context};
use crate::error::context::{CtxVal, ctx_insert};
use crate::json::{
    DocView, ItemView, JsonDoc, Field, LeafView, as_bool, as_i64, as_str, as_u64, doc_field,
    is_null, item_field, json_document, parse_json,
};
use crate::text::{int_decimal, nat_decimal, push_i64, push_str, push_u64};

verus! {

/// Bound on the layer count.
pub const MAX_LAYERS: u32 = 65536;

/// Bound on the hidden size.
pub const MAX_HIDDEN: u32 = 1048576;

/// Bound on the head count.
pub const MAX_HEADS: u32 = 1048576;

/// Bound on the per-head dimension.
pub const MAX_HEAD_DIM: u32 = 65536;

/// Bound on the vocabulary size.
pub const MAX_VOCAB: u32 = 16777216;

/// Bound on the MLP intermediate size.
pub const MAX_INTERMEDIATE: u32 = 16777216;

/// Bound on the expert count.
pub const MAX_EXPERTS: u32 = 65536;

/// Bound on a context length.
pub const MAX_CTX: u32 = 67108864;

/// Bound on the total weight bytes (16 TiB).
pub const MAX_WEIGHT_BYTES: u64 = 17592186044416;

/// A published repository file and its size.
#[derive(Clone, Debug)]
pub struct RepoFile {
    /// The file name (repo-relative).
    pub name: String,
    /// The file size in bytes.
    pub bytes: u64,
}

/// The `models.invalid_metadata` error for `reference`: message
/// `metadata for '<ref>' is malformed: <reason>`, context `ref` and `reason`.
pub open spec fn invalid_view(reference: Seq<char>, reason: Seq<char>) -> DkErrorView {
    error_with_context(
        error_new(
            ErrorCode::ModelsInvalidMetadata,
            "metadata for '"@ + reference + "' is malformed: "@ + reason,
        ),
        ctx_insert(
            ctx_insert(Seq::empty(), "ref"@, CtxVal::Str(reference)),
            "reason"@,
            CtxVal::Str(reason),
        ),
    )
}

fn invalid(reference: &str, reason: &str) -> (r: DkError)
    ensures
        r@ == invalid_view(reference@, reason@),
{
    let mut m = String::new();
    push_str(&mut m, "metadata for '");
    push_str(&mut m, reference);
    push_str(&mut m, "' is malformed: ");
    push_str(&mut m, reason);
    DkError::new(ErrorCode::ModelsInvalidMetadata, m).with_context(
        ErrorContext::new().with_str("ref", reference).with_str("reason", reason),
    )
}

/// A document or a nested object the parser reads fields from.
pub enum ContainerView {
    /// A whole document.
    Doc(DocView),
    /// A member of a document.
    Item(ItemView),
}

/// `container[k]`.
pub open spec fn cfield(c: ContainerView, k: Seq<char>) -> ItemView {
    match c {
        ContainerView::Doc(d) => doc_field(d, k),
        ContainerView::Item(i) => item_field(i, k),
    }
}

enum Container<'a> {
    Doc(&'a JsonDoc),
    Item(Field),
}

impl<'a> View for Container<'a> {
    type V = ContainerView;

    closed spec fn view(&self) -> ContainerView {
        match self {
            Container::Doc(d) => ContainerView::Doc(d@),
            Container::Item(f) => ContainerView::Item(f@),
        }
    }
}

impl<'a> Container<'a> {
    fn get(&self, k: &str) -> (r: Field)
        ensures
            r@ == cfield(self@, k@),
    {
        match self {
            Container::Doc(d) => Field::of_doc(d, k),
            Container::Item(f) => f.field(k),
        }
    }
}

/// Reading a non-negative integer field bounded by `max`.
pub open spec fn read_u32_spec(v: ItemView, field: Seq<char>, max: u32, reference: Seq<char>) -> Result<
    u32,
    DkErrorView,
> {
    if as_i64(v) matches Some(i) && i < 0 {
        Err(
            invalid_view(
                reference,
                "'"@ + field + "' is negative ("@ + int_decimal(as_i64(v)->0 as int) + ")"@,
            ),
        )
    } else {
        match as_u64(v) {
            None => Err(invalid_view(reference, "'"@ + field + "' is not a non-negative integer"@)),
            Some(n) => if n > max {
                Err(
                    invalid_view(
                        reference,
                        "'"@ + field + "' = "@ + nat_decimal(n as nat) + " exceeds the sane bound "@
                            + nat_decimal(max as nat),
                    ),
                )
            } else {
                Ok(n as u32)
            },
        }
    }
}

/// A required field: missing (`null`) is an error.
pub open spec fn req_u32_spec(c: ContainerView, field: Seq<char>, max: u32, reference: Seq<char>) -> Result<
    u32,
    DkErrorView,
> {
    if is_null(cfield(c, field)) {
        Err(invalid_view(reference, "config.json missing '"@ + field + "'"@))
    } else {
        read_u32_spec(cfield(c, field), field, max, reference)
    }
}

/// An optional field: missing (`null`) reads as `default`.
pub open spec fn opt_u32_spec(
    c: ContainerView,
    field: Seq<char>,
    max: u32,
    default: u32,
    reference: Seq<char>,
) -> Result<u32, DkErrorView> {
    if is_null(cfield(c, field)) {
        Ok(default)
    } else {
        read_u32_spec(cfield(c, field), field, max, reference)
    }
}

fn read_u32(v: &Field, field: &str, max: u32, reference: &str) -> (r: Result<u32, DkError>)
    ensures
        r matches Ok(n) ==> n <= max,
        match read_u32_spec(v@, field@, max, reference@) {
            Ok(n) => r == Ok::<u32, DkError>(n),
            Err(e) => r matches Err(x) && x@ == e,
        },
{
    match v.as_i64() {
        Some(i) => {
            if i < 0 {
                let mut reason = String::new();
                push_str(&mut reason, "'");
                push_str(&mut reason, field);
                push_str(&mut reason, "' is negative (");
                push_i64(&mut reason, i);
                push_str(&mut reason, ")");
                assert(reason@ =~= "'"@ + field@ + "' is negative ("@ + int_decimal(i as int)
                    + ")"@);
                return Err(invalid(reference, reason.as_str()));
            }
        },
        None => {},
    }
    match v.as_u64() {
        None => {
            let mut reason = String::new();
            push_str(&mut reason, "'");
            push_str(&mut reason, field);
            push_str(&mut reason, "' is not a non-negative integer");
            assert(reason@ =~= "'"@ + field@ + "' is not a non-negative integer"@);
            Err(invalid(reference, reason.as_str()))
        },
        Some(n) => {
            if n > max as u64 {
                let mut reason = String::new();
                push_str(&mut reason, "'");
                push_str(&mut reason, field);
                push_str(&mut reason, "' = ");
                push_u64(&mut reason, n);
                push_str(&mut reason, " exceeds the sane bound ");
                push_u64(&mut reason, max as u64);
                assert(reason@ =~= "'"@ + field@ + "' = "@ + nat_decimal(n as nat)
                    + " exceeds the sane bound "@ + nat_decimal(max as nat));
                Err(invalid(reference, reason.as_str()))
            } else {
                Ok(n as u32)
            }
        },
    }
}

fn req_u32(c: &Container, field: &str, max: u32, reference: &str) -> (r: Result<u32, DkError>)
    ensures
        r matches Ok(n) ==> n <= max,
        match req_u32_spec(c@, field@, max, reference@) {
            Ok(n) => r == Ok::<u32, DkError>(n),
            Err(e) => r matches Err(x) && x@ == e,
        },
{
    let v = c.get(field);
    if v.is_null() {
        let mut reason = String::new();
        push_str(&mut reason, "config.json missing '");
        push_str(&mut reason, field);
        push_str(&mut reason, "'");
        assert(reason@ =~= "config.json missing '"@ + field@ + "'"@);
        return Err(invalid(reference, reason.as_str()));
    }
    read_u32(&v, field, max, reference)
}

fn opt_u32(c: &Container, field: &str, max: u32, default: u32, reference: &str) -> (r: Result<
    u32,
    DkError,
>)
    ensures
        r matches Ok(n) ==> n <= max || n == default,
        match opt_u32_spec(c@, field@, max, default, reference@) {
            Ok(n) => r == Ok::<u32, DkError>(n),
            Err(e) => r matches Err(x) && x@ == e,
        },
{
    let v = c.get(field);
    if v.is_null() {
        Ok(default)
    } else {
        read_u32(&v, field, max, reference)
    }
}

/// The MoE topology a config describes, if any: the expert count is spelled
/// `num_local_experts` or `num_experts`; zero experts means dense.
pub open spec fn parse_moe_spec(c: ContainerView, reference: Seq<char>) -> Result<
    Option<MoeTopology>,
    DkErrorView,
> {
    let count = if !is_null(cfield(c, "num_local_experts"@)) {
        Some(req_u32_spec(c, "num_local_experts"@, MAX_EXPERTS, reference))
    } else if !is_null(cfield(c, "num_experts"@)) {
        Some(req_u32_spec(c, "num_experts"@, MAX_EXPERTS, reference))
    } else {
        None
    };
    match count {
        None => Ok(None),
        Some(Err(e)) => Err(e),
        Some(Ok(n)) => if n == 0 {
            Ok(None)
        } else {
            match opt_u32_spec(c, "num_experts_per_tok"@, MAX_EXPERTS, 1, reference) {
                Err(e) => Err(e),
                Ok(per) => if per > n {
                    Err(
                        invalid_view(
                            reference,
                            "num_experts_per_tok ("@ + nat_decimal(per as nat)
                                + ") exceeds num_experts ("@ + nat_decimal(n as nat) + ")"@,
                        ),
                    )
                } else {
                    match opt_u32_spec(c, "n_shared_experts"@, MAX_EXPERTS, 0, reference) {
                        Err(e) => Err(e),
                        Ok(shared) => Ok(
                            Some(
                                MoeTopology {
                                    num_experts: n,
                                    experts_per_token: per,
                                    shared_experts: shared,
                                },
                            ),
                        ),
                    }
                },
            }
        },
    }
}

fn parse_moe(c: &Container, reference: &str) -> (r: Result<Option<MoeTopology>, DkError>)
    ensures
        r matches Ok(Some(m)) ==> m.num_experts <= MAX_EXPERTS && m.experts_per_token
            <= MAX_EXPERTS && m.shared_experts <= MAX_EXPERTS,
        match parse_moe_spec(c@, reference@) {
            Ok(m) => r == Ok::<Option<MoeTopology>, DkError>(m),
            Err(e) => r matches Err(x) && x@ == e,
        },
{
    let n = if !c.get("num_local_experts").is_null() {
        req_u32(c, "num_local_experts", MAX_EXPERTS, reference)?
    } else if !c.get("num_experts").is_null() {
        req_u32(c, "num_experts", MAX_EXPERTS, reference)?
    } else {
        return Ok(None);
    };
    if n == 0 {
        return Ok(None);
    }
    let per = opt_u32(c, "num_experts_per_tok", MAX_EXPERTS, 1, reference)?;
    if per > n {
        let mut reason = String::new();
        push_str(&mut reason, "num_experts_per_tok (");
        push_u64(&mut reason, per as u64);
        push_str(&mut reason, ") exceeds num_experts (");
        push_u64(&mut reason, n as u64);
        push_str(&mut reason, ")");
        assert(reason@ =~= "num_experts_per_tok ("@ + nat_decimal(per as nat)
            + ") exceeds num_experts ("@ + nat_decimal(n as nat) + ")"@);
        return Err(invalid(reference, reason.as_str()));
    }
    let shared = opt_u32(c, "n_shared_experts", MAX_EXPERTS, 0, reference)?;
    Ok(Some(MoeTopology { num_experts: n, experts_per_token: per, shared_experts: shared }))
}

/// The layout of layer `i` under a sliding window with a full-attention layer
/// every `pattern` layers (none when `pattern` is 0).
pub open spec fn window_layer(i: int, window: u32, pattern: u32) -> LayoutClass {
    if pattern > 0 && (i + 1) % (pattern as int) == 0 {
        LayoutClass::Global
    } else {
        LayoutClass::SlidingWindow { window, sinks: 0 }
    }
}

/// Under a sliding window with full-attention period `p`, the layers come in
/// blocks of `p`: within each block only the last layer attends in full, and
/// the others slide over `window` tokens (so with `p > 1` the first layer of
/// every block, layer 0 included, slides).
pub proof fn lemma_full_attention_ends_each_block(k: nat, j: int, window: u32, pattern: u32)
    requires
        pattern > 0,
        0 <= j < pattern,
    ensures
        window_layer(k * pattern + j, window, pattern) == (if j == pattern - 1 {
            LayoutClass::Global
        } else {
            LayoutClass::SlidingWindow { window, sinks: 0 }
        }),
{
    let p = pattern as int;
    assert(k * pattern + j + 1 == p * (k as int) + (j + 1)) by (nonlinear_arith)
        requires
            p == pattern as int,
    ;
    vstd::arithmetic::div_mod::lemma_mod_multiples_vanish(k as int, j + 1, p);
    if j + 1 < p {
        vstd::arithmetic::div_mod::lemma_small_mod((j + 1) as nat, p as nat);
    } else {
        vstd::arithmetic::div_mod::lemma_mod_self_0(p);
    }
}

/// A config with a positive `sliding_window` and a positive
/// `sliding_window_pattern` `p` (and no latent-attention fields) yields one
/// layout per layer: layer `i` attends in full exactly when it is the last of
/// its block of `p`, i.e. `i mod p == p - 1`; every other layer slides over
/// the window.
pub proof fn lemma_sliding_window_layouts(
    c: ContainerView,
    layers: u32,
    reference: Seq<char>,
    window: u32,
    pattern: u32,
)
    requires
        is_null(cfield(c, "kv_lora_rank"@)),
        !is_null(cfield(c, "sliding_window"@)),
        read_u32_spec(cfield(c, "sliding_window"@), "sliding_window"@, MAX_CTX, reference) == Ok::<
            u32,
            DkErrorView,
        >(window),
        window > 0,
        opt_u32_spec(c, "sliding_window_pattern"@, MAX_LAYERS, 0, reference) == Ok::<
            u32,
            DkErrorView,
        >(pattern),
        pattern > 0,
    ensures
        parse_layouts_spec(c, layers, reference) matches Ok(s) && s.len() == layers && forall|i: int|
            0 <= i < layers ==> #[trigger] s[i] == (if i % (pattern as int) == pattern - 1 {
                LayoutClass::Global
            } else {
                LayoutClass::SlidingWindow { window, sinks: 0 }
            }),
{
    let s = parse_layouts_spec(c, layers, reference)->Ok_0;
    assert forall|i: int| 0 <= i < layers implies #[trigger] s[i] == (if i % (pattern as int)
        == pattern - 1 {
        LayoutClass::Global
    } else {
        LayoutClass::SlidingWindow { window, sinks: 0 }
    }) by {
        let p = pattern as int;
        vstd::arithmetic::div_mod::lemma_fundamental_div_mod(i, p);
        vstd::arithmetic::div_mod::lemma_div_pos_is_pos(i, p);
        vstd::arithmetic::div_mod::lemma_mod_bound(i, p);
        let k = (i / p) as nat;
        assert(k * pattern + i % p == i) by (nonlinear_arith)
            requires
                i == p * (i / p) + i % p,
                k == i / p,
                p == pattern,
        ;
        lemma_full_attention_ends_each_block(k, i % p, window, pattern);
    }
}

/// The per-layer KV layout classes: MLA when the latent-attention fields are
/// present, a sliding window when one is set, else global attention.
pub open spec fn parse_layouts_spec(c: ContainerView, layers: u32, reference: Seq<char>) -> Result<
    Seq<LayoutClass>,
    DkErrorView,
> {
    if !is_null(cfield(c, "kv_lora_rank"@)) {
        match req_u32_spec(c, "kv_lora_rank"@, MAX_HIDDEN, reference) {
            Err(e) => Err(e),
            Ok(c_kv) => match opt_u32_spec(c, "qk_rope_head_dim"@, MAX_HEAD_DIM, 0, reference) {
                Err(e) => Err(e),
                Ok(d_rope) => Ok(
                    Seq::new(layers as nat, |i: int| LayoutClass::MlaLatent { c_kv, d_rope }),
                ),
            },
        }
    } else if !is_null(cfield(c, "sliding_window"@)) {
        match read_u32_spec(cfield(c, "sliding_window"@), "sliding_window"@, MAX_CTX, reference) {
            Err(e) => Err(e),
            Ok(window) => if window > 0 {
                match opt_u32_spec(c, "sliding_window_pattern"@, MAX_LAYERS, 0, reference) {
                    Err(e) => Err(e),
                    Ok(pattern) => Ok(
                        Seq::new(layers as nat, |i: int| window_layer(i, window, pattern)),
                    ),
                }
            } else {
                Ok(Seq::new(layers as nat, |i: int| LayoutClass::Global))
            },
        }
    } else {
        Ok(Seq::new(layers as nat, |i: int| LayoutClass::Global))
    }
}

fn repeat_layout(layers: u32, l: LayoutClass) -> (r: Vec<LayoutClass>)
    ensures
        r@ == Seq::new(layers as nat, |i: int| l),
{
    let mut v: Vec<LayoutClass> = Vec::new();
    let mut i: u32 = 0;
    while i < layers
        invariant
            i <= layers,
            v@ == Seq::new(i as nat, |j: int| l),
        decreases layers - i,
    {
        v.push(l);
        i = i + 1;
        assert(v@ =~= Seq::new(i as nat, |j: int| l));
    }
    v
}

fn parse_layouts(c: &Container, layers: u32, reference: &str) -> (r: Result<
    Vec<LayoutClass>,
    DkError,
>)
    ensures
        match parse_layouts_spec(c@, layers, reference@) {
            Ok(s) => r matches Ok(v) && v@ == s,
            Err(e) => r matches Err(x) && x@ == e,
        },
{
    if !c.get("kv_lora_rank").is_null() {
        let c_kv = req_u32(c, "kv_lora_rank", MAX_HIDDEN, reference)?;
        let d_rope = opt_u32(c, "qk_rope_head_dim", MAX_HEAD_DIM, 0, reference)?;
        return Ok(repeat_layout(layers, LayoutClass::MlaLatent { c_kv, d_rope }));
    }
    let sw = c.get("sliding_window");
    if !sw.is_null() {
        let window = read_u32(&sw, "sliding_window", MAX_CTX, reference)?;
        if window > 0 {
            let pattern = opt_u32(c, "sliding_window_pattern", MAX_LAYERS, 0, reference)?;
            let mut v: Vec<LayoutClass> = Vec::new();
            let mut i: u32 = 0;
            while i < layers
                invariant
                    i <= layers,
                    v@ == Seq::new(i as nat, |j: int| window_layer(j, window, pattern)),
                decreases layers - i,
            {
                let full = pattern > 0 && (i + 1) % pattern == 0;
                if full {
                    v.push(LayoutClass::Global);
                } else {
                    v.push(LayoutClass::SlidingWindow { window, sinks: 0 });
                }
                i = i + 1;
                assert(v@ =~= Seq::new(i as nat, |j: int| window_layer(j, window, pattern)));
            }
            return Ok(v);
        }
    }
    Ok(repeat_layout(layers, LayoutClass::Global))
}

/// The mathematical value of a [`QuantDesc`].
pub struct QuantView {
    /// Scheme.
    pub scheme: Seq<char>,
    /// Bits per stored weight.
    pub bits: u8,
    /// Group size.
    pub group: u32,
    /// Recipe.
    pub recipe: Option<Seq<char>>,
}

/// The view of a quantization descriptor.
pub open spec fn quant_view(q: QuantDesc) -> QuantView {
    QuantView {
        scheme: q.scheme@,
        bits: q.bits,
        group: q.group,
        recipe: match q.recipe {
            Some(r) => Some(r@),
            None => None,
        },
    }
}

/// `n` clamped to `[lo, hi]`.
pub open spec fn clamp_u32(n: u32, lo: u32, hi: u32) -> u32 {
    if n < lo {
        lo
    } else if n > hi {
        hi
    } else {
        n
    }
}

/// The quantization descriptor: from a separate document, or the
/// `quantization_config` object of the config, or unquantized 16-bit.
pub open spec fn parse_quant_spec(
    quant: Option<Seq<u8>>,
    c: ContainerView,
    reference: Seq<char>,
) -> Result<QuantView, DkErrorView> {
    let qc: Option<Result<ContainerView, DkErrorView>> = match quant {
        Some(b) => Some(
            match json_document(b) {
                Ok(d) => Ok(ContainerView::Doc(d)),
                Err(m) => Err(invalid_view(reference, "quant config: "@ + m)),
            },
        ),
        None => if !is_null(cfield(c, "quantization_config"@)) {
            Some(Ok(ContainerView::Item(cfield(c, "quantization_config"@))))
        } else {
            None
        },
    };
    match qc {
        None => Ok(QuantView { scheme: "none"@, bits: 16, group: 0, recipe: None }),
        Some(Err(e)) => Err(e),
        Some(Ok(q)) => {
            let scheme = match as_str(cfield(q, "quant_method"@)) {
                Some(s) => s,
                None => match as_str(cfield(q, "scheme"@)) {
                    Some(s) => s,
                    None => "unknown"@,
                },
            };
            let bits = match read_u32_spec(cfield(q, "bits"@), "bits"@, 64, reference) {
                Ok(b) => clamp_u32(b, 1, 64),
                Err(_) => 4,
            };
            match opt_u32_spec(q, "group_size"@, MAX_HIDDEN, 0, reference) {
                Err(e) => Err(e),
                Ok(group) => Ok(QuantView { scheme, bits: bits as u8, group, recipe: None }),
            }
        },
    }
}

fn quant_from(q: &Container, reference: &str) -> (r: Result<QuantDesc, DkError>)
    ensures
        ({
            let scheme = match as_str(cfield(q@, "quant_method"@)) {
                Some(s) => s,
                None => match as_str(cfield(q@, "scheme"@)) {
                    Some(s) => s,
                    None => "unknown"@,
                },
            };
            let bits = match read_u32_spec(cfield(q@, "bits"@), "bits"@, 64, reference@) {
                Ok(b) => clamp_u32(b, 1, 64),
                Err(_) => 4,
            };
            match opt_u32_spec(q@, "group_size"@, MAX_HIDDEN, 0, reference@) {
                Err(e) => r matches Err(x) && x@ == e,
                Ok(group) => r matches Ok(d) && quant_view(d) == QuantView {
                    scheme,
                    bits: bits as u8,
                    group,
                    recipe: None,
                },
            }
        }),
{
    let scheme = match q.get("quant_method").as_str() {
        Some(s) => s.to_owned(),
        None => match q.get("scheme").as_str() {
            Some(s) => s.to_owned(),
            None => "unknown".to_owned(),
        },
    };
    let bits = match read_u32(&q.get("bits"), "bits", 64, reference) {
        Ok(b) => {
            if b < 1 {
                1
            } else if b > 64 {
                64
            } else {
                b
            }
        },
        Err(_) => 4,
    };
    let group = opt_u32(q, "group_size", MAX_HIDDEN, 0, reference)?;
    Ok(QuantDesc { scheme, bits: bits as u8, group, recipe: None })
}

fn parse_quant(quant: Option<&[u8]>, c: &Container, reference: &str) -> (r: Result<
    QuantDesc,
    DkError,
>)
    ensures
        match parse_quant_spec(
            match quant {
                Some(b) => Some(b@),
                None => None,
            },
            c@,
            reference@,
        ) {
            Ok(v) => r matches Ok(d) && quant_view(d) == v,
            Err(e) => r matches Err(x) && x@ == e,
        },
{
    match quant {
        Some(bytes) => {
            match parse_json(bytes) {
                Ok(doc) => {
                    let q = Container::Doc(&doc);
                    quant_from(&q, reference)
                },
                Err(m) => {
                    let mut reason = String::new();
                    push_str(&mut reason, "quant config: ");
                    push_str(&mut reason, m.as_str());
                    Err(invalid(reference, reason.as_str()))
                },
            }
        },
        None => {
            let qc = c.get("quantization_config");
            if !qc.is_null() {
                let q = Container::Item(qc);
                quant_from(&q, reference)
            } else {
                Ok(QuantDesc { scheme: "none".to_owned(), bits: 16, group: 0, recipe: None })
            }
        },
    }
}

/// The mathematical value of a [`TensorEntry`].
pub open spec fn tensor_view(t: TensorEntry) -> (Seq<char>, Seq<char>, u64) {
    (t.name@, t.dtype@, t.bytes)
}

/// The exact weight total from a safetensors index, recorded as one aggregate
/// entry (the index carries no per-tensor sizes).
pub open spec fn parse_index_spec(bytes: Seq<u8>, reference: Seq<char>) -> Result<
    Seq<(Seq<char>, Seq<char>, u64)>,
    DkErrorView,
> {
    match json_document(bytes) {
        Err(m) => Err(invalid_view(reference, "safetensors index: "@ + m)),
        Ok(d) => {
            let total = item_field(doc_field(d, "metadata"@), "total_size"@);
            if is_null(total) {
                Err(invalid_view(reference, "safetensors index has no metadata.total_size"@))
            } else if as_i64(total) matches Some(i) && i < 0 {
                Err(
                    invalid_view(
                        reference,
                        "total_size is negative ("@ + int_decimal(as_i64(total)->0 as int) + ")"@,
                    ),
                )
            } else {
                match as_u64(total) {
                    None => Err(
                        invalid_view(reference, "total_size is not a non-negative integer"@),
                    ),
                    Some(n) => if n > MAX_WEIGHT_BYTES {
                        Err(
                            invalid_view(
                                reference,
                                "total_size "@ + nat_decimal(n as nat) + " exceeds the sane bound "@
                                    + nat_decimal(MAX_WEIGHT_BYTES as nat),
                            ),
                        )
                    } else {
                        Ok(seq![("*safetensors-index-total*"@, "mixed"@, n)])
                    },
                }
            }
        },
    }
}

fn parse_index(bytes: &[u8], reference: &str) -> (r: Result<Vec<TensorEntry>, DkError>)
    ensures
        match parse_index_spec(bytes@, reference@) {
            Ok(s) => r matches Ok(v) && v@.map_values(|t: TensorEntry| tensor_view(t)) == s,
            Err(e) => r matches Err(x) && x@ == e,
        },
{
    let doc = match parse_json(bytes) {
        Ok(d) => d,
        Err(m) => {
            let mut reason = String::new();
            push_str(&mut reason, "safetensors index: ");
            push_str(&mut reason, m.as_str());
            return Err(invalid(reference, reason.as_str()));
        },
    };
    let total = Field::of_doc(&doc, "metadata").field("total_size");
    if total.is_null() {
        return Err(invalid(reference, "safetensors index has no metadata.total_size"));
    }
    match total.as_i64() {
        Some(i) => {
            if i < 0 {
                let mut reason = String::new();
                push_str(&mut reason, "total_size is negative (");
                push_i64(&mut reason, i);
                push_str(&mut reason, ")");
                assert(reason@ =~= "total_size is negative ("@ + int_decimal(i as int) + ")"@);
                return Err(invalid(reference, reason.as_str()));
            }
        },
        None => {},
    }
    let n = match total.as_u64() {
        Some(n) => n,
        None => {
            return Err(invalid(reference, "total_size is not a non-negative integer"));
        },
    };
    if n > MAX_WEIGHT_BYTES {
        let mut reason = String::new();
        push_str(&mut reason, "total_size ");
        push_u64(&mut reason, n);
        push_str(&mut reason, " exceeds the sane bound ");
        push_u64(&mut reason, MAX_WEIGHT_BYTES);
        assert(reason@ =~= "total_size "@ + nat_decimal(n as nat) + " exceeds the sane bound "@
            + nat_decimal(MAX_WEIGHT_BYTES as nat));
        return Err(invalid(reference, reason.as_str()));
    }
    let mut v: Vec<TensorEntry> = Vec::new();
    v.push(
        TensorEntry {
            name: "*safetensors-index-total*".to_owned(),
            dtype: "mixed".to_owned(),
            bytes: n,
        },
    );
    assert(v@.map_values(|t: TensorEntry| tensor_view(t)) =~= seq![
        ("*safetensors-index-total*"@, "mixed"@, n),
    ]);
    Ok(v)
}

/// The structural dimensions a parameter-count estimate needs.
pub struct ParamDims {
    /// Layers.
    pub layers: u32,
    /// Hidden size.
    pub hidden: u32,
    /// Attention heads.
    pub heads: u32,
    /// Key/value heads.
    pub kv_heads: u32,
    /// Per-head dimension.
    pub head_dim: u32,
    /// Vocabulary size.
    pub vocab: u32,
    /// MLP intermediate size.
    pub intermediate: u32,
    /// Whether the output head shares the embedding matrix.
    pub tied_embeddings: bool,
}

/// A structural estimate of `(total, active)` parameters: GQA-aware
/// attention, a three-matrix MLP per expert (routed-plus-shared experts for
/// the active count), and the embeddings (twice when untied).
pub open spec fn estimate_params_spec(d: ParamDims, moe: Option<MoeTopology>) -> (nat, nat) {
    let hidden = d.hidden as nat;
    let q_dim = d.heads as nat * d.head_dim as nat;
    let kv_dim = d.kv_heads as nat * d.head_dim as nat;
    let attn = hidden * q_dim + 2 * hidden * kv_dim + q_dim * hidden;
    let mlp_one = 3 * hidden * d.intermediate as nat;
    let (mlp_total, mlp_active) = match moe {
        Some(m) => (
            mlp_one * m.num_experts as nat,
            mlp_one * (m.experts_per_token as nat + m.shared_experts as nat),
        ),
        None => (mlp_one, mlp_one),
    };
    let embed = d.vocab as nat * hidden;
    let embed_params = if d.tied_embeddings {
        embed
    } else {
        2 * embed
    };
    (
        embed_params + d.layers as nat * (attn + mlp_total),
        embed_params + d.layers as nat * (attn + mlp_active),
    )
}

proof fn lemma_mul_bound(a: nat, b: nat, x: nat, y: nat)
    requires
        a <= x,
        b <= y,
    ensures
        a * b <= x * y,
{
    assert(a * b <= x * y) by (nonlinear_arith)
        requires
            a <= x,
            b <= y,
    ;
}

proof fn lemma_triple_product(h: nat, k: nat)
    ensures
        3 * h * k == 3 * (h * k),
{
    assert(3 * h * k == 3 * (h * k)) by (nonlinear_arith);
}

proof fn lemma_double_product(h: nat, k: nat)
    ensures
        2 * h * k == 2 * (h * k),
{
    assert(2 * h * k == 2 * (h * k)) by (nonlinear_arith);
}

/// The estimate, computed without overflow.
pub fn estimate_params(d: &ParamDims, moe: Option<MoeTopology>) -> (r: (u128, u128))
    requires
        d.hidden <= MAX_HIDDEN,
        d.heads <= MAX_HEADS,
        d.kv_heads <= MAX_HEADS,
        d.head_dim <= MAX_HIDDEN,
        d.vocab <= MAX_VOCAB,
        d.intermediate <= MAX_INTERMEDIATE,
        d.layers <= MAX_LAYERS,
        moe matches Some(m) ==> m.num_experts <= MAX_EXPERTS && m.experts_per_token
            <= MAX_EXPERTS && m.shared_experts <= MAX_EXPERTS,
    ensures
        r.0 as nat == estimate_params_spec(*d, moe).0,
        r.1 as nat == estimate_params_spec(*d, moe).1,
{
    let hidden = d.hidden as u128;
    let head_dim = d.head_dim as u128;
    proof {
        lemma_mul_bound(d.heads as nat, d.head_dim as nat, MAX_HEADS as nat, MAX_HIDDEN as nat);
        lemma_mul_bound(d.kv_heads as nat, d.head_dim as nat, MAX_HEADS as nat, MAX_HIDDEN as nat);
    }
    let q_dim = d.heads as u128 * head_dim;
    let kv_dim = d.kv_heads as u128 * head_dim;
    proof {
        lemma_mul_bound(hidden as nat, q_dim as nat, MAX_HIDDEN as nat, 0x100_0000_0000nat);
        lemma_mul_bound(hidden as nat, kv_dim as nat, MAX_HIDDEN as nat, 0x100_0000_0000nat);
        lemma_mul_bound(q_dim as nat, hidden as nat, 0x100_0000_0000nat, MAX_HIDDEN as nat);
        lemma_mul_bound(hidden as nat, d.intermediate as nat, MAX_HIDDEN as nat, MAX_INTERMEDIATE as nat);
    }
    let a = hidden * q_dim;
    let b = hidden * kv_dim;
    let c = q_dim * hidden;
    proof {
        lemma_double_product(hidden as nat, kv_dim as nat);
    }
    let attn = a + 2 * b + c;
    let hi = hidden * d.intermediate as u128;
    proof {
        lemma_triple_product(hidden as nat, d.intermediate as nat);
    }
    let mlp_one = 3 * hi;
    let (mlp_total, mlp_active) = match moe {
        Some(m) => {
            proof {
                lemma_mul_bound(mlp_one as nat, m.num_experts as nat, 0x30_0000_0000_0000nat, MAX_EXPERTS as nat);
                lemma_mul_bound(
                    mlp_one as nat,
                    m.experts_per_token as nat + m.shared_experts as nat,
                    0x30_0000_0000_0000nat,
                    2 * MAX_EXPERTS as nat,
                );
            }
            (
                mlp_one * m.num_experts as u128,
                mlp_one * (m.experts_per_token as u128 + m.shared_experts as u128),
            )
        },
        None => (mlp_one, mlp_one),
    };
    proof {
        lemma_mul_bound(d.vocab as nat, hidden as nat, MAX_VOCAB as nat, MAX_HIDDEN as nat);
        lemma_mul_bound(
            d.layers as nat,
            (attn + mlp_total) as nat,
            MAX_LAYERS as nat,
            0x1000_0000_0000_0000_0000nat,
        );
        lemma_mul_bound(
            d.layers as nat,
            (attn + mlp_active) as nat,
            MAX_LAYERS as nat,
            0x1000_0000_0000_0000_0000nat,
        );
    }
    let embed = d.vocab as u128 * hidden;
    let embed_params = if d.tied_embeddings {
        embed
    } else {
        2 * embed
    };
    let total = embed_params + d.layers as u128 * (attn + mlp_total);
    let active = embed_params + d.layers as u128 * (attn + mlp_active);
    (total, active)
}

/// The dimensions read from `config.json` before the nested parts.
pub struct Header {
    /// `model_type`.
    pub arch: Seq<char>,
    /// `num_hidden_layers`.
    pub layers: u32,
    /// `hidden_size`.
    pub hidden: u32,
    /// `num_attention_heads`.
    pub heads: u32,
    /// `num_key_value_heads` (default: `heads`).
    pub kv_heads: u32,
    /// `head_dim` (default: `hidden / heads`).
    pub head_dim: u32,
    /// `vocab_size`.
    pub vocab: u32,
    /// `intermediate_size` (default: `4 * hidden`, saturating).
    pub intermediate: u32,
    /// `max_position_embeddings` (default 0).
    pub advertised_ctx: u32,
    /// `tie_word_embeddings` (default false).
    pub tied: bool,
}

/// `4 * hidden`, saturating at `u32::MAX`.
pub open spec fn sat4(hidden: u32) -> u32 {
    if 4 * hidden > u32::MAX {
        u32::MAX
    } else {
        (4 * hidden) as u32
    }
}

/// Reading the header fields, in order, stopping at the first error.
pub open spec fn header_spec(c: ContainerView, reference: Seq<char>) -> Result<Header, DkErrorView> {
    match as_str(cfield(c, "model_type"@)) {
        None => Err(invalid_view(reference, "config.json missing 'model_type'"@)),
        Some(arch) => match req_u32_spec(c, "num_hidden_layers"@, MAX_LAYERS, reference) {
            Err(e) => Err(e),
            Ok(layers) => match req_u32_spec(c, "hidden_size"@, MAX_HIDDEN, reference) {
                Err(e) => Err(e),
                Ok(hidden) => match req_u32_spec(c, "num_attention_heads"@, MAX_HEADS, reference) {
                    Err(e) => Err(e),
                    Ok(heads) => if heads == 0 {
                        Err(invalid_view(reference, "num_attention_heads must be > 0"@))
                    } else {
                        match opt_u32_spec(c, "num_key_value_heads"@, MAX_HEADS, heads, reference) {
                            Err(e) => Err(e),
                            Ok(kv_heads) => match opt_u32_spec(
                                c,
                                "head_dim"@,
                                MAX_HEAD_DIM,
                                (hidden / heads) as u32,
                                reference,
                            ) {
                                Err(e) => Err(e),
                                Ok(head_dim) => match req_u32_spec(c, "vocab_size"@, MAX_VOCAB, reference) {
                                    Err(e) => Err(e),
                                    Ok(vocab) => match opt_u32_spec(
                                        c,
                                        "intermediate_size"@,
                                        MAX_INTERMEDIATE,
                                        sat4(hidden),
                                        reference,
                                    ) {
                                        Err(e) => Err(e),
                                        Ok(intermediate) => match opt_u32_spec(
                                            c,
                                            "max_position_embeddings"@,
                                            MAX_CTX,
                                            0,
                                            reference,
                                        ) {
                                            Err(e) => Err(e),
                                            Ok(advertised_ctx) => Ok(
                                                Header {
                                                    arch,
                                                    layers,
                                                    hidden,
                                                    heads,
                                                    kv_heads,
                                                    head_dim,
                                                    vocab,
                                                    intermediate,
                                                    advertised_ctx,
                                                    tied: match as_bool(
                                                        cfield(c, "tie_word_embeddings"@),
                                                    ) {
                                                        Some(b) => b,
                                                        None => false,
                                                    },
                                                },
                                            ),
                                        },
                                    },
                                },
                            },
                        }
                    },
                },
            },
        },
    }
}

struct ConfigHeader {
    arch: String,
    layers: u32,
    hidden: u32,
    heads: u32,
    kv_heads: u32,
    head_dim: u32,
    vocab: u32,
    intermediate: u32,
    advertised_ctx: u32,
    tied: bool,
}

spec fn header_view(h: ConfigHeader) -> Header {
    Header {
        arch: h.arch@,
        layers: h.layers,
        hidden: h.hidden,
        heads: h.heads,
        kv_heads: h.kv_heads,
        head_dim: h.head_dim,
        vocab: h.vocab,
        intermediate: h.intermediate,
        advertised_ctx: h.advertised_ctx,
        tied: h.tied,
    }
}

fn read_header(c: &Container, reference: &str) -> (r: Result<ConfigHeader, DkError>)
    ensures
        r matches Ok(x) ==> x.layers <= MAX_LAYERS && x.hidden <= MAX_HIDDEN && x.heads
            <= MAX_HEADS && x.kv_heads <= MAX_HEADS && x.head_dim <= MAX_HIDDEN && x.vocab
            <= MAX_VOCAB && x.intermediate <= MAX_INTERMEDIATE,
        match header_spec(c@, reference@) {
            Ok(h) => r matches Ok(x) && header_view(x) == h,
            Err(e) => r matches Err(x) && x@ == e,
        },
{
    let arch = match c.get("model_type").as_str() {
        Some(a) => a.to_owned(),
        None => {
            return Err(invalid(reference, "config.json missing 'model_type'"));
        },
    };
    let layers = req_u32(c, "num_hidden_layers", MAX_LAYERS, reference)?;
    let hidden = req_u32(c, "hidden_size", MAX_HIDDEN, reference)?;
    let heads = req_u32(c, "num_attention_heads", MAX_HEADS, reference)?;
    if heads == 0 {
        return Err(invalid(reference, "num_attention_heads must be > 0"));
    }
    let kv_heads = opt_u32(c, "num_key_value_heads", MAX_HEADS, heads, reference)?;
    let head_dim = opt_u32(c, "head_dim", MAX_HEAD_DIM, hidden / heads, reference)?;
    let vocab = req_u32(c, "vocab_size", MAX_VOCAB, reference)?;
    let four = match hidden.checked_mul(4) {
        Some(x) => x,
        None => u32::MAX,
    };
    let intermediate = opt_u32(c, "intermediate_size", MAX_INTERMEDIATE, four, reference)?;
    let advertised_ctx = opt_u32(c, "max_position_embeddings", MAX_CTX, 0, reference)?;
    let tied = match c.get("tie_word_embeddings").as_bool() {
        Some(b) => b,
        None => false,
    };
    Ok(
        ConfigHeader {
            arch,
            layers,
            hidden,
            heads,
            kv_heads,
            head_dim,
            vocab,
            intermediate,
            advertised_ctx,
            tied,
        },
    )
}

/// The sum of the published file sizes.
pub open spec fn files_total(files: Seq<RepoFile>) -> nat
    decreases files.len(),
{
    if files.len() == 0 {
        0
    } else {
        files_total(files.drop_last()) + files.last().bytes as nat
    }
}

fn sum_files(files: &[RepoFile]) -> (r: u64)
    requires
        files_total(files@) <= u64::MAX,
    ensures
        r == files_total(files@),
{
    let mut sum: u64 = 0;
    let mut i: usize = 0;
    while i < files.len()
        invariant
            i <= files@.len(),
            files_total(files@) <= u64::MAX,
            sum == files_total(files@.subrange(0, i as int)),
        decreases files@.len() - i,
    {
        proof {
            let pre = files@.subrange(0, i + 1);
            assert(pre.drop_last() =~= files@.subrange(0, i as int));
            lemma_files_total_prefix(files@, i + 1);
        }
        sum = sum + files[i].bytes;
        i = i + 1;
    }
    assert(files@.subrange(0, files@.len() as int) =~= files@);
    sum
}

proof fn lemma_files_total_prefix(f: Seq<RepoFile>, k: int)
    requires
        0 <= k <= f.len(),
    ensures
        files_total(f.subrange(0, k)) <= files_total(f),
    decreases f.len(),
{
    if k < f.len() {
        assert(f.drop_last().subrange(0, k) =~= f.subrange(0, k));
        lemma_files_total_prefix(f.drop_last(), k);
    } else {
        assert(f.subrange(0, k) =~= f);
    }
}

/// The mathematical value of a [`ModelDescriptor`].
pub struct DescriptorView {
    /// Reference.
    pub reference: Seq<char>,
    /// Architecture.
    pub arch: Seq<char>,
    /// Layers.
    pub layers: u32,
    /// Hidden size.
    pub hidden: u32,
    /// Heads.
    pub heads: u32,
    /// KV heads.
    pub kv_heads: u32,
    /// Head dimension.
    pub head_dim: u32,
    /// Vocabulary.
    pub vocab: u32,
    /// Total parameters.
    pub params_total: u64,
    /// Active parameters.
    pub params_active: u64,
    /// MoE topology.
    pub moe: Option<MoeTopology>,
    /// Layout classes.
    pub layout_classes: Seq<LayoutClass>,
    /// Quantization.
    pub quant: QuantView,
    /// Advertised context.
    pub advertised_ctx: u32,
    /// Tensors as (name, dtype, bytes).
    pub tensors: Seq<(Seq<char>, Seq<char>, u64)>,
    /// Repo total bytes.
    pub repo_total_bytes: u64,
}

/// The view of a descriptor.
pub open spec fn descriptor_view(d: ModelDescriptor) -> DescriptorView {
    DescriptorView {
        reference: d.reference@,
        arch: d.arch@,
        layers: d.layers,
        hidden: d.hidden,
        heads: d.heads,
        kv_heads: d.kv_heads,
        head_dim: d.head_dim,
        vocab: d.vocab,
        params_total: d.params_total,
        params_active: d.params_active,
        moe: d.moe,
        layout_classes: d.layout_classes@,
        quant: quant_view(d.quant),
        advertised_ctx: d.advertised_ctx,
        tensors: d.tensors@.map_values(|t: TensorEntry| tensor_view(t)),
        repo_total_bytes: d.repo_total_bytes,
    }
}

/// The error for a parameter estimate beyond `u64`.
pub open spec fn params_overflow_reason() -> Seq<char> {
    "the parameter estimate exceeds u64"@
}

/// The descriptor once the config is known to be an object: header, MoE,
/// layouts, quantization, index, then the parameter estimate.
pub open spec fn root_descriptor(
    reference: Seq<char>,
    doc: DocView,
    index: Option<Seq<u8>>,
    quant: Option<Seq<u8>>,
    repo_total_bytes: u64,
) -> Result<DescriptorView, DkErrorView> {
    let c = ContainerView::Doc(doc);
    match header_spec(c, reference) {
        Err(e) => Err(e),
        Ok(h) => match parse_moe_spec(c, reference) {
            Err(e) => Err(e),
            Ok(moe) => match parse_layouts_spec(c, h.layers, reference) {
                Err(e) => Err(e),
                Ok(layouts) => match parse_quant_spec(quant, c, reference) {
                    Err(e) => Err(e),
                    Ok(q) => match (match index {
                        Some(b) => parse_index_spec(b, reference),
                        None => Ok(Seq::empty()),
                    }) {
                        Err(e) => Err(e),
                        Ok(tensors) => {
                            let dims = ParamDims {
                                layers: h.layers,
                                hidden: h.hidden,
                                heads: h.heads,
                                kv_heads: h.kv_heads,
                                head_dim: h.head_dim,
                                vocab: h.vocab,
                                intermediate: h.intermediate,
                                tied_embeddings: h.tied,
                            };
                            let p = estimate_params_spec(dims, moe);
                            if p.0 > u64::MAX || p.1 > u64::MAX {
                                Err(invalid_view(reference, params_overflow_reason()))
                            } else {
                                Ok(
                                    DescriptorView {
                                        reference,
                                        arch: h.arch,
                                        layers: h.layers,
                                        hidden: h.hidden,
                                        heads: h.heads,
                                        kv_heads: h.kv_heads,
                                        head_dim: h.head_dim,
                                        vocab: h.vocab,
                                        params_total: p.0 as u64,
                                        params_active: p.1 as u64,
                                        moe,
                                        layout_classes: layouts,
                                        quant: q,
                                        advertised_ctx: h.advertised_ctx,
                                        tensors,
                                        repo_total_bytes,
                                    },
                                )
                            }
                        },
                    },
                },
            },
        },
    }
}

/// What parsing the metadata yields: a descriptor, or the first
/// `models.invalid_metadata` error.
pub open spec fn descriptor_spec(
    reference: Seq<char>,
    config: Seq<u8>,
    index: Option<Seq<u8>>,
    quant: Option<Seq<u8>>,
    repo_total_bytes: u64,
) -> Result<DescriptorView, DkErrorView> {
    match json_document(config) {
        Err(m) => Err(invalid_view(reference, "config.json: "@ + m)),
        Ok(doc) => doc_descriptor(reference, doc, index, quant, repo_total_bytes),
    }
}

/// What a parsed `config.json` yields: the descriptor when it is an object,
/// else `config.json is not a JSON object`.
pub open spec fn doc_descriptor(
    reference: Seq<char>,
    doc: DocView,
    index: Option<Seq<u8>>,
    quant: Option<Seq<u8>>,
    repo_total_bytes: u64,
) -> Result<DescriptorView, DkErrorView> {
    if doc is Root {
        root_descriptor(reference, doc, index, quant, repo_total_bytes)
    } else {
        Err(invalid_view(reference, "config.json is not a JSON object"@))
    }
}

/// Parses HuggingFace metadata into a validated [`ModelDescriptor`]:
/// `config` is `config.json`; `index` is `model.safetensors.index.json` when
/// the repo publishes one; `quant` is a separate `quantization_config`
/// document; `files` is the repo's published file-size list. Malformed or
/// truncated JSON, a missing required field, and an out-of-range or
/// overflowing integer are `models.invalid_metadata`, never a panic.
pub fn parse_model_descriptor(
    reference: &str,
    config: &[u8],
    index: Option<&[u8]>,
    quant: Option<&[u8]>,
    files: &[RepoFile],
) -> (r: Result<ModelDescriptor, DkError>)
    requires
        files_total(files@) <= u64::MAX,
    ensures
        match descriptor_spec(
            reference@,
            config@,
            match index {
                Some(b) => Some(b@),
                None => None,
            },
            match quant {
                Some(b) => Some(b@),
                None => None,
            },
            files_total(files@) as u64,
        ) {
            Ok(d) => r matches Ok(x) && descriptor_view(x) == d,
            Err(e) => r matches Err(x) && x@ == e,
        },
{
    let doc = match parse_json(config) {
        Ok(d) => d,
        Err(m) => {
            let mut reason = String::new();
            push_str(&mut reason, "config.json: ");
            push_str(&mut reason, m.as_str());
            return Err(invalid(reference, reason.as_str()));
        },
    };
    descriptor_from_doc(reference, &doc, index, quant, sum_files(files))
}

/// Builds the descriptor from an already parsed `config.json`: everything
/// [`parse_model_descriptor`] does after the parse, with the repo's file
/// sizes already summed.
pub fn descriptor_from_doc(
    reference: &str,
    doc: &JsonDoc,
    index: Option<&[u8]>,
    quant: Option<&[u8]>,
    repo_total_bytes: u64,
) -> (r: Result<ModelDescriptor, DkError>)
    ensures
        match doc_descriptor(
            reference@,
            doc@,
            match index {
                Some(b) => Some(b@),
                None => None,
            },
            match quant {
                Some(b) => Some(b@),
                None => None,
            },
            repo_total_bytes,
        ) {
            Ok(d) => r matches Ok(x) && descriptor_view(x) == d,
            Err(e) => r matches Err(x) && x@ == e,
        },
{
    let is_object = match doc {
        JsonDoc::Root(_) => true,
        JsonDoc::NotObject => false,
    };
    if !is_object {
        return Err(invalid(reference, "config.json is not a JSON object"));
    }
    let c = Container::Doc(doc);
    let h = read_header(&c, reference)?;
    let moe = parse_moe(&c, reference)?;
    let layout_classes = parse_layouts(&c, h.layers, reference)?;
    let quant_desc = parse_quant(quant, &c, reference)?;
    let tensors = match index {
        Some(bytes) => parse_index(bytes, reference)?,
        None => {
            let v: Vec<TensorEntry> = Vec::new();
            assert(v@.map_values(|t: TensorEntry| tensor_view(t)) =~= Seq::<
                (Seq<char>, Seq<char>, u64),
            >::empty());
            v
        },
    };
    let dims = ParamDims {
        layers: h.layers,
        hidden: h.hidden,
        heads: h.heads,
        kv_heads: h.kv_heads,
        head_dim: h.head_dim,
        vocab: h.vocab,
        intermediate: h.intermediate,
        tied_embeddings: h.tied,
    };
    let (total, active) = estimate_params(&dims, moe);
    if total > u64::MAX as u128 || active > u64::MAX as u128 {
        return Err(invalid(reference, "the parameter estimate exceeds u64"));
    }
    Ok(
        ModelDescriptor {
            reference: reference.to_owned(),
            arch: h.arch,
            layers: h.layers,
            hidden: h.hidden,
            heads: h.heads,
            kv_heads: h.kv_heads,
            head_dim: h.head_dim,
            vocab: h.vocab,
            params_total: total as u64,
            params_active: active as u64,
            moe,
            layout_classes,
            quant: quant_desc,
            advertised_ctx: h.advertised_ctx,
            tensors,
            repo_total_bytes,
        },
    )
}

} // verus!
