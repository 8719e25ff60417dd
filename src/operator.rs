use crate::model::Declaration;
use vstd::prelude::*;

verus! {

/// One primitive of the bag container that a combine operator performs.
#[derive(Debug, Clone, Copy, PartialEq, Eq, Structural)]
pub enum BagStep {
    /// Start from a new, empty bag.
    StartEmpty,
    /// Start from (a copy of) the right-hand bag.
    StartFromRight,
    /// Insert the left-hand variant.
    InsertLeft,
    /// Insert the right-hand variant.
    InsertRight,
}

/// The combine operator of one enumeration, in its two overloads: the
/// primitives each performs, in order.
#[derive(Debug, Clone)]
pub struct OperatorUnit {
    pub ident: String,
    /// `variant | variant`.
    pub with_variant: Vec<BagStep>,
    /// `variant | bag`.
    pub with_bag: Vec<BagStep>,
}

pub const OP_HEAD: &'static str = "#[automatically_derived]\nimpl core::ops::BitOr<Self> for ";

pub const OP_BODY: &'static str = "\nwhere\n    Self: bitbag::BitBaggable,\n{\n    type Output = bitbag::BitBag<Self>;\n    fn bitor(self, rhs: Self) -> Self::Output {\n        *";

pub const OP_BAG_HEAD: &'static str = "#[automatically_derived]\nimpl core::ops::BitOr<bitbag::BitBag<Self>> for ";

pub const OP_BAG_BODY: &'static str = "\nwhere\n    Self: bitbag::BitBaggable,\n{\n    type Output = bitbag::BitBag<Self>;\n    fn bitor(self, mut rhs: bitbag::BitBag<Self>) -> Self::Output {\n        *";

pub const OP_END: &'static str = "\n    }\n}\n";

pub const STEP_EMPTY: &'static str = "bitbag::BitBag::empty()";

pub const STEP_RIGHT: &'static str = "rhs";

pub const STEP_LEFT_IN: &'static str = ".set(self)";

pub const STEP_RIGHT_IN: &'static str = ".set(rhs)";

impl BagStep {
    /// The source text of this primitive.
    pub open spec fn spec_text(self) -> Seq<char> {
        match self {
            BagStep::StartEmpty => STEP_EMPTY@,
            BagStep::StartFromRight => STEP_RIGHT@,
            BagStep::InsertLeft => STEP_LEFT_IN@,
            BagStep::InsertRight => STEP_RIGHT_IN@,
        }
    }

    pub fn text(&self) -> (r: &'static str)
        ensures
            r@ == self.spec_text(),
    {
        match self {
            BagStep::StartEmpty => STEP_EMPTY,
            BagStep::StartFromRight => STEP_RIGHT,
            BagStep::InsertLeft => STEP_LEFT_IN,
            BagStep::InsertRight => STEP_RIGHT_IN,
        }
    }
}

/// The source text of a chain of primitives.
pub open spec fn steps_text(steps: Seq<BagStep>) -> Seq<char>
    decreases steps.len(),
{
    if steps.len() == 0 {
        Seq::empty()
    } else {
        steps_text(steps.drop_last()) + steps.last().spec_text()
    }
}

fn render_steps(steps: &Vec<BagStep>, out: &mut String)
    ensures
        final(out)@ == old(out)@ + steps_text(steps@),
{
    let ghost start = out@;
    let mut i: usize = 0;
    while i < steps.len()
        invariant
            0 <= i <= steps@.len(),
            out@ == start + steps_text(steps@.take(i as int)),
        decreases steps@.len() - i,
    {
        assert(steps@.take(i + 1).drop_last() =~= steps@.take(i as int));
        out.append(steps[i].text());
        i = i + 1;
        assert(out@ =~= start + steps_text(steps@.take(i as int)));
    }
    assert(steps@.take(i as int) =~= steps@);
}

/// The bag that results from running `steps`, where insertion adds one
/// element to the set of members.
pub open spec fn run_steps<A>(steps: Seq<BagStep>, left: A, right: A, right_bag: Set<A>) -> Set<A>
    decreases steps.len(),
{
    if steps.len() == 0 {
        Set::empty()
    } else {
        let bag = run_steps(steps.drop_last(), left, right, right_bag);
        match steps.last() {
            BagStep::StartEmpty => Set::empty(),
            BagStep::StartFromRight => right_bag,
            BagStep::InsertLeft => bag.insert(left),
            BagStep::InsertRight => bag.insert(right),
        }
    }
}

impl OperatorUnit {
    /// The members of `left | right` for two variants.
    pub open spec fn combine_variants<A>(self, left: A, right: A) -> Set<A> {
        run_steps(self.with_variant@, left, right, Set::empty())
    }

    /// The members of `left | bag`.
    pub open spec fn combine_with_bag<A>(self, left: A, bag: Set<A>) -> Set<A> {
        run_steps(self.with_bag@, left, left, bag)
    }

    /// The source text of both overloads.
    pub open spec fn spec_source(self) -> Seq<char> {
        OP_HEAD@ + self.ident@ + OP_BODY@ + steps_text(self.with_variant@) + OP_END@ + OP_BAG_HEAD@
            + self.ident@ + OP_BAG_BODY@ + steps_text(self.with_bag@) + OP_END@
    }

    /// Renders both overloads as source text.
    pub fn to_source(&self) -> (r: String)
        ensures
            r@ == self.spec_source(),
    {
        let mut out = String::from_str(OP_HEAD);
        out.append(self.ident.as_str());
        out.append(OP_BODY);
        render_steps(&self.with_variant, &mut out);
        out.append(OP_END);
        out.append(OP_BAG_HEAD);
        out.append(self.ident.as_str());
        out.append(OP_BAG_BODY);
        render_steps(&self.with_bag, &mut out);
        out.append(OP_END);
        assert(out@ =~= self.spec_source());
        out
    }

    /// The operator of an enumeration named `name`.
    pub open spec fn is_operator_for(self, name: Seq<char>) -> bool {
        &&& self.ident@ == name
        &&& self.with_variant@ == seq![BagStep::StartEmpty, BagStep::InsertLeft, BagStep::InsertRight]
        &&& self.with_bag@ == seq![BagStep::StartFromRight, BagStep::InsertLeft]
    }
}

/// Synthesizes the combine operator of a declaration; it needs nothing of
/// the declaration but its name, and always succeeds.
pub fn expand_bitor(input: &Declaration) -> (r: OperatorUnit)
    ensures
        r.is_operator_for(input.ident@),
{
    let with_variant = vec![BagStep::StartEmpty, BagStep::InsertLeft, BagStep::InsertRight];
    let with_bag = vec![BagStep::StartFromRight, BagStep::InsertLeft];
    let r = OperatorUnit { ident: input.ident.clone(), with_variant, with_bag };
    assert(r.with_variant@ =~= seq![BagStep::StartEmpty, BagStep::InsertLeft, BagStep::InsertRight]);
    assert(r.with_bag@ =~= seq![BagStep::StartFromRight, BagStep::InsertLeft]);
    r
}

/// Combining two variants yields a bag whose members are exactly those two.
pub proof fn lemma_combine_two_variants<A>(u: OperatorUnit, name: Seq<char>, left: A, right: A)
    requires
        u.is_operator_for(name),
    ensures
        u.combine_variants(left, right).contains(left),
        u.combine_variants(left, right).contains(right),
        forall|x: A| #[trigger] u.combine_variants(left, right).contains(x) ==> x == left || x == right,
{
    let s = u.with_variant@;
    assert(s.drop_last().drop_last().drop_last() =~= Seq::<BagStep>::empty());
    assert(s.drop_last() =~= seq![BagStep::StartEmpty, BagStep::InsertLeft]);
    assert(s.drop_last().drop_last() =~= seq![BagStep::StartEmpty]);
    reveal_with_fuel(run_steps, 4);
    assert(u.combine_variants(left, right) == Set::<A>::empty().insert(left).insert(right));
}

/// Combining a variant with a bag inserts it; where the bag already holds
/// the variant the result equals the bag.
pub proof fn lemma_combine_with_bag<A>(u: OperatorUnit, name: Seq<char>, left: A, bag: Set<A>)
    requires
        u.is_operator_for(name),
    ensures
        u.combine_with_bag(left, bag) == bag.insert(left),
        bag.contains(left) ==> u.combine_with_bag(left, bag) == bag,
{
    let s = u.with_bag@;
    assert(s.drop_last() =~= seq![BagStep::StartFromRight]);
    assert(s.drop_last().drop_last() =~= Seq::<BagStep>::empty());
    reveal_with_fuel(run_steps, 3);
    if bag.contains(left) {
        assert(bag.insert(left) =~= bag);
    }
}

} // verus!
