use vstd::prelude::*;

verus! {

/// Binary operators, as far as constant folding tells them apart.
#[derive(Clone, Copy, Debug, PartialEq, Eq, Structural)]
pub enum BinaryOp {
    LogicalAnd,
    LogicalOr,
    NullishCoalescing,
    Other,
}

/// A byte range `[lo, hi)` of a module's source.
#[derive(Clone, Copy, Debug, PartialEq, Eq, Structural)]
pub struct Span {
    pub lo: u32,
    pub hi: u32,
}

impl Span {
    pub open spec fn non_empty(&self) -> bool {
        self.lo < self.hi
    }
}

/// What static evaluation learnt of an operand.
#[derive(Clone, Copy, Debug, PartialEq, Eq, Structural)]
pub struct EvaluatedExpression {
    /// its truthiness, when known
    pub as_bool: Option<bool>,
    /// whether it is null or undefined, when known
    pub as_nullish: Option<bool>,
    pub could_have_side_effects: bool,
    /// whether it is a boolean literal value
    pub is_bool: bool,
    pub range: Span,
}

/// A logical or nullish-coalescing expression, its left operand evaluated.
#[derive(Clone, Copy, Debug, PartialEq, Eq, Structural)]
pub struct LogicalExpression {
    pub op: BinaryOp,
    pub left: EvaluatedExpression,
    pub left_span: Span,
    pub right_span: Span,
}

impl LogicalExpression {
    /// Operand spans are never empty, the evaluated range is the left
    /// operand's span, and the left operand ends before the right one starts.
    pub open spec fn well_formed(&self) -> bool {
        &&& self.left.range.non_empty()
        &&& self.right_span.non_empty()
        &&& self.left.range == self.left_span
        &&& self.left_span.hi <= self.right_span.lo
    }
}

/// Replace the source between `start` and `end` (both inclusive) by `content`.
#[derive(Clone, Debug, PartialEq, Eq)]
pub struct ConstDependency {
    pub start: u32,
    pub end: u32,
    pub content: String,
    pub runtime_requirement: Option<String>,
}

impl View for ConstDependency {
    type V = (u32, u32, Seq<char>, Option<Seq<char>>);

    open spec fn view(&self) -> Self::V {
        (
            self.start,
            self.end,
            self.content@,
            match self.runtime_requirement {
                Some(r) => Some(r@),
                None => None,
            },
        )
    }
}

impl ConstDependency {
    pub fn new(start: u32, end: u32, content: String, runtime_requirement: Option<String>) -> (r:
        ConstDependency)
        ensures
            r.start == start,
            r.end == end,
            r.content == content,
            r.runtime_requirement == runtime_requirement,
    {
        ConstDependency { start, end, content, runtime_requirement }
    }
}

/// What scanning a module collects: rewrite instructions, and the operands
/// still to be walked, in order.
pub struct DependencyScanner {
    pub presentational_dependencies: Vec<ConstDependency>,
    pub pending_walks: Vec<Span>,
}

impl DependencyScanner {
    pub fn new() -> (r: DependencyScanner)
        ensures
            r.presentational_dependencies@.len() == 0,
            r.pending_walks@.len() == 0,
    {
        DependencyScanner { presentational_dependencies: Vec::new(), pending_walks: Vec::new() }
    }

    pub open spec fn deps_view(&self) -> Seq<(u32, u32, Seq<char>, Option<Seq<char>>)> {
        self.presentational_dependencies@.map_values(|d: ConstDependency| d@)
    }
}

pub open spec fn bool_literal(b: bool) -> Seq<char> {
    if b {
        " true"@
    } else {
        " false"@
    }
}

/// `Some(keep_right)` when the left operand decides whether the right one runs.
pub open spec fn keep_right_of(e: LogicalExpression) -> Option<bool> {
    match e.op {
        BinaryOp::LogicalAnd | BinaryOp::LogicalOr => match e.left.as_bool {
            Some(b) => Some(if b {
                e.op == BinaryOp::LogicalAnd
            } else {
                e.op == BinaryOp::LogicalOr
            }),
            None => None,
        },
        BinaryOp::NullishCoalescing => e.left.as_nullish,
        BinaryOp::Other => None,
    }
}

/// Whether the left operand is replaced by a literal instead of walked.
pub open spec fn left_folded(e: LogicalExpression) -> bool {
    match keep_right_of(e) {
        Some(keep_right) => !e.left.could_have_side_effects && if e.op
            == BinaryOp::NullishCoalescing {
            keep_right
        } else {
            keep_right || e.left.is_bool
        },
        None => false,
    }
}

/// Whether the left operand is walked for its own dependencies.
pub open spec fn walks_left(e: LogicalExpression) -> bool {
    keep_right_of(e) is Some && !left_folded(e)
}

pub open spec fn left_literal(e: LogicalExpression) -> Seq<char> {
    if e.op == BinaryOp::NullishCoalescing {
        " null"@
    } else {
        bool_literal(e.left.as_bool->0)
    }
}

/// Whether the right operand, being unreachable, is replaced by the
/// dead-code marker `0`.
pub open spec fn right_folded(e: LogicalExpression) -> bool {
    keep_right_of(e) == Some(false)
}

/// The rewrites recorded for `e`, in order.
pub open spec fn rewrites_of(e: LogicalExpression) -> Seq<(u32, u32, Seq<char>, Option<Seq<char>>)> {
    let left = if left_folded(e) {
        seq![((e.left.range.lo, (e.left.range.hi - 1) as u32, left_literal(e), None))]
    } else {
        Seq::empty()
    };
    let right = if right_folded(e) {
        seq![((e.right_span.lo, (e.right_span.hi - 1) as u32, "0"@, None))]
    } else {
        Seq::empty()
    };
    left + right
}

/// Two rewrites touch no common byte.
pub open spec fn disjoint(a: (u32, u32, Seq<char>, Option<Seq<char>>), b: (
    u32,
    u32,
    Seq<char>,
    Option<Seq<char>>,
)) -> bool {
    a.1 < b.0 || b.1 < a.0
}

fn push_const(scanner: &mut DependencyScanner, range: Span, content: &str)
    requires
        range.non_empty(),
    ensures
        final(scanner).deps_view() == old(scanner).deps_view().push(
            (range.lo, (range.hi - 1) as u32, content@, None),
        ),
        final(scanner).pending_walks == old(scanner).pending_walks,
{
    let dep = ConstDependency::new(range.lo, range.hi - 1, String::from_str(content), None);
    scanner.presentational_dependencies.push(dep);
    assert(final(scanner).deps_view() =~= old(scanner).deps_view().push(
        (range.lo, (range.hi - 1) as u32, content@, None),
    ));
}

/// Folds a logical (`&&`, `||`) or nullish (`??`) expression whose left
/// operand was evaluated statically. Returns `None` when both operands are to
/// be walked, `Some(true)` when only the right one is left to walk, and
/// `Some(false)` when nothing is.
pub fn expression_logic_operator(scanner: &mut DependencyScanner, expr: &LogicalExpression) -> (r:
    Option<bool>)
    requires
        expr.well_formed(),
    ensures
        r == keep_right_of(*expr),
        final(scanner).deps_view() == old(scanner).deps_view() + rewrites_of(*expr),
        final(scanner).pending_walks@ == if walks_left(*expr) {
            old(scanner).pending_walks@.push(expr.left_span)
        } else {
            old(scanner).pending_walks@
        },
{
    let ghost d0 = scanner.deps_view();
    let param = expr.left;
    if expr.op == BinaryOp::LogicalAnd || expr.op == BinaryOp::LogicalOr {
        let boolean = match param.as_bool {
            Some(b) => b,
            None => {
                assert(rewrites_of(*expr) =~= Seq::empty());
                assert(d0 + rewrites_of(*expr) =~= d0);
                return None;
            },
        };
        let keep_right = if boolean {
            expr.op == BinaryOp::LogicalAnd
        } else {
            expr.op == BinaryOp::LogicalOr
        };
        if !param.could_have_side_effects && (keep_right || param.is_bool) {
            let literal = if boolean {
                " true"
            } else {
                " false"
            };
            push_const(scanner, param.range, literal);
        } else {
            scanner.pending_walks.push(expr.left_span);
        }
        if !keep_right {
            push_const(scanner, expr.right_span, "0");
        }
        assert(scanner.deps_view() =~= d0 + rewrites_of(*expr));
        Some(keep_right)
    } else if expr.op == BinaryOp::NullishCoalescing {
        match param.as_nullish {
            Some(keep_right) => {
                if !param.could_have_side_effects && keep_right {
                    push_const(scanner, param.range, " null");
                } else {
                    if !keep_right {
                        push_const(scanner, expr.right_span, "0");
                    }
                    scanner.pending_walks.push(expr.left_span);
                }
                assert(scanner.deps_view() =~= d0 + rewrites_of(*expr));
                Some(keep_right)
            },
            None => {
                assert(d0 + rewrites_of(*expr) =~= d0);
                None
            },
        }
    } else {
        assert(d0 + rewrites_of(*expr) =~= d0);
        None
    }
}

/// The rewrites that folding one expression records never overlap, and each
/// covers a non-empty range inside one of the operands.
pub proof fn lemma_rewrites_disjoint(e: LogicalExpression)
    requires
        e.well_formed(),
    ensures
        forall|i: int, j: int|
            0 <= i < j < rewrites_of(e).len() ==> disjoint(
                #[trigger] rewrites_of(e)[i],
                #[trigger] rewrites_of(e)[j],
            ),
        forall|i: int| 0 <= i < rewrites_of(e).len() ==> #[trigger] rewrites_of(e)[i].0 <= rewrites_of(e)[i].1,
        forall|i: int|
            0 <= i < rewrites_of(e).len() ==> (e.left_span.lo <= #[trigger] rewrites_of(e)[i].0
                && rewrites_of(e)[i].1 < e.left_span.hi) || (e.right_span.lo <= rewrites_of(e)[i].0
                && rewrites_of(e)[i].1 < e.right_span.hi),
{
}

} // verus!
