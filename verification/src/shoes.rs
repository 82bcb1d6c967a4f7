//! Filtering a collection by a field: keeping the shoes of one size, in
//! the order they came in.

use vstd::prelude::*;
use vstd::seq_lib::*;

verus! {

#[derive(PartialEq, Debug)]
pub struct Shoe {
    pub size: u32,
    pub style: String,
}

/// Keeps exactly the shoes of the given size, in their original order.
/// Takes ownership of the shoes and hands the kept ones back.
pub fn shoes_in_size(shoes: Vec<Shoe>, shoe_size: u32) -> (r: Vec<Shoe>)
    ensures
        r@ == shoes@.filter(|s: Shoe| s.size == shoe_size),
{
    let ghost pred = |s: Shoe| s.size == shoe_size;
    let ghost orig = shoes@;
    let mut shoes = shoes;
    let mut result: Vec<Shoe> = Vec::new();
    proof {
        assert(result@ + shoes@.filter(pred) =~= shoes@.filter(pred));
    }
    while shoes.len() > 0
        invariant
            pred == (|s: Shoe| s.size == shoe_size),
            result@ + shoes@.filter(pred) == orig.filter(pred),
        decreases shoes@.len(),
    {
        let ghost before = shoes@;
        let s = shoes.remove(0);
        proof {
            assert(before =~= seq![s] + shoes@);
            Seq::filter_distributes_over_add(seq![s], shoes@, pred);
            crate::seq_facts::lemma_filter_singleton(s, pred);
        }
        let ghost old_result = result@;
        if s.size == shoe_size {
            result.push(s);
            proof {
                assert(result@ =~= old_result + seq![s]);
                assert((old_result + seq![s]) + shoes@.filter(pred) =~= old_result + (seq![s]
                    + shoes@.filter(pred)));
            }
        } else {
            proof {
                assert(Seq::<Shoe>::empty() + shoes@.filter(pred) =~= shoes@.filter(pred));
            }
        }
    }
    proof {
        assert(shoes@.filter(pred) =~= Seq::<Shoe>::empty()) by {
            assert(shoes@ =~= Seq::<Shoe>::empty());
            reveal(Seq::filter);
        }
        assert(result@ + Seq::<Shoe>::empty() =~= result@);
    }
    result
}

} // verus!
