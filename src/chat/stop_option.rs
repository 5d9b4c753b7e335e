//! The sequences at which generation stops.
use crate::error::{ValidationError, ValidationResult};
use crate::text::{decimal, decimal_text, joined, owned};
use vstd::prelude::*;

verus! {

/// The largest number of stop sequences.
pub const MAX_STOP_SEQUENCES: usize = 4;

/// One stop sequence, or up to four.
#[derive(Debug, Clone, PartialEq, Eq)]
pub enum StopOption {
    /// A single sequence.
    SingleSequence(String),
    /// Up to four sequences.
    UpTo4Sequences(Vec<String>),
}

/// The texts of `items`, separated by `, `.
pub open spec fn comma_list(items: Seq<Seq<char>>) -> Seq<char>
    decreases items.len(),
{
    if items.len() == 0 {
        seq![]
    } else if items.len() == 1 {
        items[0]
    } else {
        comma_list(items.drop_last()) + ", "@ + items.last()
    }
}

impl StopOption {
    /// How the option is written: the sequence itself, or the sequences in
    /// brackets, separated by `, `.
    pub open spec fn text(&self) -> Seq<char> {
        match self {
            StopOption::SingleSequence(s) => s@,
            StopOption::UpTo4Sequences(v) => "["@ + comma_list(v@.map_values(|s: String| s@))
                + "]"@,
        }
    }

    /// A single stop sequence.
    pub fn new_single(sequence: &str) -> (r: Self)
        ensures
            r matches StopOption::SingleSequence(s) && s@ == sequence@,
    {
        StopOption::SingleSequence(owned(sequence))
    }

    /// Up to four stop sequences, or an error that carries their number when
    /// there are more.
    pub fn new_up_to_4(sequences: Vec<String>) -> (r: ValidationResult<Self, usize>)
        ensures
            match r {
                Ok(s) => sequences@.len() <= MAX_STOP_SEQUENCES && s == StopOption::UpTo4Sequences(
                    sequences,
                ),
                Err(e) => {
                    &&& sequences@.len() > MAX_STOP_SEQUENCES
                    &&& e.type_label@ == "StopOption"@
                    &&& e.reason@
                        == "The number of sequences must be less than or equal to 4, but got "@
                        + decimal(sequences@.len()) + "."@
                    &&& e.value == sequences@.len()
                },
            },
    {
        let n = sequences.len();
        if n > MAX_STOP_SEQUENCES {
            let count = decimal_text(n);
            let head = joined(
                "The number of sequences must be less than or equal to 4, but got ",
                count.as_str(),
            );
            Err(
                ValidationError {
                    type_label: owned("StopOption"),
                    reason: joined(head.as_str(), "."),
                    value: n,
                },
            )
        } else {
            Ok(StopOption::UpTo4Sequences(sequences))
        }
    }

    /// How the option is written.
    pub fn to_string(&self) -> (r: String)
        ensures
            r@ == self.text(),
    {
        match self {
            StopOption::SingleSequence(s) => s.clone(),
            StopOption::UpTo4Sequences(v) => {
                let ghost items = v@.map_values(|s: String| s@);
                let mut acc = String::new();
                let mut i: usize = 0;
                while i < v.len()
                    invariant
                        items == v@.map_values(|s: String| s@),
                        i <= v@.len(),
                        acc@ == comma_list(items.take(i as int)),
                    decreases v@.len() - i,
                {
                    if i > 0 {
                        acc.append(", ");
                    }
                    acc.append(v[i].as_str());
                    proof {
                        let next = items.take(i + 1);
                        assert(next.drop_last() =~= items.take(i as int));
                        assert(next.last() == v@[i as int]@);
                        if i == 0 {
                            assert(items.take(0) =~= Seq::<Seq<char>>::empty());
                            assert(acc@ =~= v@[0]@);
                        }
                    }
                    i = i + 1;
                }
                assert(items.take(v@.len() as int) =~= items);
                let opened = joined("[", acc.as_str());
                joined(opened.as_str(), "]")
            },
        }
    }
}

impl Default for StopOption {
    fn default() -> (r: Self)
        ensures
            r matches StopOption::SingleSequence(s) && s@ == Seq::<char>::empty(),
    {
        StopOption::SingleSequence(String::new())
    }
}

} // verus!
