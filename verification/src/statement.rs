//! Parameterized statements: the text with its positional placeholders, and
//! the values bound to them.

use crate::model::{values_view, Value, ValueView};
use vstd::prelude::*;
use vstd::string::StringExecFns;

verus! {

/// A statement ready for the driver: the text, and the values bound to its
/// placeholders, the value for `$k` at position `k - 1`.
#[derive(Clone, Debug, PartialEq, Eq)]
pub struct Statement {
    pub text: String,
    pub values: Vec<Value>,
}

/// What a [`Statement`] stands for.
pub struct StatementView {
    pub text: Seq<char>,
    pub values: Seq<ValueView>,
}

impl View for Statement {
    type V = StatementView;

    open spec fn view(&self) -> StatementView {
        StatementView { text: self.text@, values: values_view(self.values@) }
    }
}

impl StatementView {
    /// Every placeholder has its value and every value its placeholder: the
    /// text holds as many placeholders as there are bound values.
    pub open spec fn balanced(self) -> bool {
        placeholder_count(self.text) == self.values.len()
    }
}

/// The character that writes the digit `d`.
pub open spec fn digit_char(d: nat) -> char
    recommends
        d < 10,
{
    if d == 0 {
        '0'
    } else if d == 1 {
        '1'
    } else if d == 2 {
        '2'
    } else if d == 3 {
        '3'
    } else if d == 4 {
        '4'
    } else if d == 5 {
        '5'
    } else if d == 6 {
        '6'
    } else if d == 7 {
        '7'
    } else if d == 8 {
        '8'
    } else {
        '9'
    }
}

/// `n` written in base ten, without leading zeros.
pub open spec fn decimal(n: nat) -> Seq<char>
    decreases n,
{
    if n < 10 {
        seq![digit_char(n)]
    } else {
        decimal(n / 10).push(digit_char(n % 10))
    }
}

/// The positional marker with index `index`: a dollar sign and the index in
/// base ten.
pub open spec fn placeholder(index: nat) -> Seq<char> {
    seq!['$'] + decimal(index)
}

/// The number of placeholders in `text`: the number of dollar signs in it.
pub open spec fn placeholder_count(text: Seq<char>) -> nat
    decreases text.len(),
{
    if text.len() == 0 {
        0
    } else {
        placeholder_count(text.drop_last()) + if text.last() == '$' {
            1nat
        } else {
            0nat
        }
    }
}

/// Whether `text` holds no dollar sign.
pub open spec fn plain(text: Seq<char>) -> bool {
    forall|i: int| 0 <= i < text.len() ==> text[i] != '$'
}

/// The placeholders of a concatenation are those of its two parts.
pub proof fn lemma_count_concat(a: Seq<char>, b: Seq<char>)
    ensures
        placeholder_count(a + b) == placeholder_count(a) + placeholder_count(b),
    decreases b.len(),
{
    if b.len() == 0 {
        assert(a + b =~= a);
    } else {
        assert((a + b).drop_last() =~= a + b.drop_last());
        assert((a + b).last() == b.last());
        lemma_count_concat(a, b.drop_last());
    }
}

/// Text without a dollar sign holds no placeholder.
pub proof fn lemma_count_plain(text: Seq<char>)
    requires
        plain(text),
    ensures
        placeholder_count(text) == 0,
    decreases text.len(),
{
    if text.len() > 0 {
        lemma_count_plain(text.drop_last());
    }
}

/// A number in base ten holds no dollar sign.
pub proof fn lemma_decimal_plain(n: nat)
    ensures
        plain(decimal(n)),
        decimal(n).len() >= 1,
    decreases n,
{
    if n >= 10 {
        lemma_decimal_plain(n / 10);
    }
}

/// A placeholder counts as exactly one.
pub proof fn lemma_count_placeholder(index: nat)
    ensures
        placeholder_count(placeholder(index)) == 1,
{
    let mark = seq!['$'];
    assert(mark.drop_last() =~= Seq::<char>::empty());
    assert(placeholder_count(mark.drop_last()) == 0);
    assert(placeholder_count(mark) == 1);
    lemma_decimal_plain(index);
    lemma_count_plain(decimal(index));
    lemma_count_concat(mark, decimal(index));
}

/// The one-character text of the digit `d`.
fn digit_text(d: u32) -> (text: &'static str)
    requires
        d < 10,
    ensures
        text@ == seq![digit_char(d as nat)],
{
    proof {
        reveal_strlit("0");
        reveal_strlit("1");
        reveal_strlit("2");
        reveal_strlit("3");
        reveal_strlit("4");
        reveal_strlit("5");
        reveal_strlit("6");
        reveal_strlit("7");
        reveal_strlit("8");
        reveal_strlit("9");
    }
    let text = if d == 0 {
        "0"
    } else if d == 1 {
        "1"
    } else if d == 2 {
        "2"
    } else if d == 3 {
        "3"
    } else if d == 4 {
        "4"
    } else if d == 5 {
        "5"
    } else if d == 6 {
        "6"
    } else if d == 7 {
        "7"
    } else if d == 8 {
        "8"
    } else {
        "9"
    };
    assert(text@ =~= seq![digit_char(d as nat)]);
    text
}

/// Appends `n` in base ten to `text`.
pub fn push_decimal(text: &mut String, n: u32)
    ensures
        final(text)@ == old(text)@ + decimal(n as nat),
    decreases n,
{
    if n >= 10 {
        push_decimal(text, n / 10);
    }
    text.append(digit_text(n % 10));
    proof {
        if n >= 10 {
            assert(text@ =~= old(text)@ + decimal((n / 10) as nat).push(
                digit_char((n % 10) as nat),
            ));
        }
    }
}

/// Appends the placeholder with index `index` to `text`.
pub fn push_placeholder(text: &mut String, index: u32)
    ensures
        final(text)@ == old(text)@ + placeholder(index as nat),
{
    proof {
        reveal_strlit("$");
    }
    text.append("$");
    push_decimal(text, index);
    assert(text@ =~= old(text)@ + placeholder(index as nat));
}

} // verus!
