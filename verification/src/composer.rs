//! The query composer: from a sparse update request to a parameterized
//! `UPDATE` statement and its bound values.

use crate::model::{column_name, values_view, Field, Patch, PatchView, Value, ValueView};
use crate::statement::{
    lemma_count_concat, lemma_count_placeholder, lemma_count_plain, placeholder,
    placeholder_count, plain, push_placeholder, Statement,
};
use vstd::prelude::*;
use vstd::string::StringExecFns;

verus! {

/// The assignment clause that sets `field` from the placeholder `index`.
pub open spec fn assignment(field: Field, index: nat) -> Seq<char> {
    column_name(field) + " = "@ + placeholder(index)
}

/// What stands before an assignment clause that follows `before` others.
pub open spec fn separator(before: nat) -> Seq<char> {
    if before == 0 {
        Seq::empty()
    } else {
        ", "@
    }
}

/// The assignment clauses for `fields`, separated by commas, with
/// consecutive placeholder indices that start at `first`.
pub open spec fn set_list(fields: Seq<Field>, first: nat) -> Seq<char>
    decreases fields.len(),
{
    if fields.len() == 0 {
        Seq::empty()
    } else {
        set_list(fields.drop_last(), first) + separator((fields.len() - 1) as nat) + assignment(
            fields.last(),
            (first + fields.len() - 1) as nat,
        )
    }
}

/// The text of the update statement for `patch`: one assignment for each
/// present field, in the fixed field order, numbered from 2; placeholder 1 is
/// the identifier in the `WHERE` clause.
pub open spec fn update_text(patch: PatchView) -> Seq<char> {
    "UPDATE orders SET "@ + set_list(patch.present(), 2) + " WHERE id = "@ + placeholder(1)
}

/// The values bound by the update statement for `patch`: the identifier, then
/// the new value of each present field, in the fixed field order.
pub open spec fn update_values(id: int, patch: PatchView) -> Seq<ValueView> {
    seq![ValueView::Int(id)] + Seq::new(
        patch.present().len(),
        |i: int| patch.value_of(patch.present()[i]),
    )
}

/// Appends one assignment to the text and its value to the bound values, in
/// lock-step: the placeholder index is the position that the value takes.
fn assign(text: &mut String, values: &mut Vec<Value>, field: Field, value: Value)
    requires
        1 <= old(values).len() <= 4,
    ensures
        final(values)@ == old(values)@.push(value),
        final(text)@ == old(text)@ + separator((old(values).len() - 1) as nat) + assignment(
            field,
            (old(values).len() + 1) as nat,
        ),
{
    let before: usize = values.len();
    if before > 1 {
        text.append(", ");
    }
    text.append(field.column());
    text.append(" = ");
    push_placeholder(text, (before + 1) as u32);
    values.push(value);
    assert(text@ =~= old(text)@ + separator((before - 1) as nat) + assignment(
        field,
        (before + 1) as nat,
    ));
}

/// Composes the update statement for the order `id` from `patch`.
///
/// A patch without a present field yields no statement: there is nothing to
/// set. Otherwise the statement assigns each present field from its own
/// placeholder and binds the identifier and the new values in the order of
/// the placeholders.
pub fn compose(id: i32, patch: Patch) -> (statement: Option<Statement>)
    ensures
        statement is None <==> patch@.is_empty(),
        statement matches Some(s) ==> s@.text == update_text(patch@) && s@.values == update_values(
            id as int,
            patch@,
        ) && s@.balanced(),
{
    if patch.is_empty() {
        return None;
    }
    let ghost request = patch@;
    let ghost head = "UPDATE orders SET "@;
    let Patch { name, coffee_name, size, total } = patch;
    let mut text: String = "UPDATE orders SET ".to_owned();
    let mut values: Vec<Value> = Vec::new();
    values.push(Value::Int(id));
    let ghost mut done: Seq<Field> = Seq::empty();
    assert(text@ =~= head + set_list(done, 2));
    assert(values_view(values@) =~= seq![ValueView::Int(id as int)] + Seq::new(
        done.len(),
        |i: int| request.value_of(done[i]),
    ));

    match name {
        Some(new_name) => {
            assign(&mut text, &mut values, Field::Name, Value::Text(new_name));
            proof {
                lemma_set_list_push(done, Field::Name, head, text@);
                done = done.push(Field::Name);
            }
        },
        None => {},
    }
    assert(done =~= request.only(Field::Name));
    assert(values_view(values@) =~= seq![ValueView::Int(id as int)] + Seq::new(
        done.len(),
        |i: int| request.value_of(done[i]),
    ));

    let ghost named = done;
    match coffee_name {
        Some(new_coffee_name) => {
            assign(&mut text, &mut values, Field::CoffeeName, Value::Text(new_coffee_name));
            proof {
                lemma_set_list_push(done, Field::CoffeeName, head, text@);
                done = done.push(Field::CoffeeName);
            }
        },
        None => {},
    }
    assert(done =~= named + request.only(Field::CoffeeName));
    assert(values_view(values@) =~= seq![ValueView::Int(id as int)] + Seq::new(
        done.len(),
        |i: int| request.value_of(done[i]),
    ));

    let ghost brewed = done;
    match size {
        Some(new_size) => {
            assign(&mut text, &mut values, Field::Size, Value::Text(new_size));
            proof {
                lemma_set_list_push(done, Field::Size, head, text@);
                done = done.push(Field::Size);
            }
        },
        None => {},
    }
    assert(done =~= brewed + request.only(Field::Size));
    assert(values_view(values@) =~= seq![ValueView::Int(id as int)] + Seq::new(
        done.len(),
        |i: int| request.value_of(done[i]),
    ));

    let ghost sized = done;
    match total {
        Some(new_total) => {
            assign(&mut text, &mut values, Field::Total, Value::Int(new_total));
            proof {
                lemma_set_list_push(done, Field::Total, head, text@);
                done = done.push(Field::Total);
            }
        },
        None => {},
    }
    assert(done =~= sized + request.only(Field::Total));
    assert(done =~= request.present());
    assert(values_view(values@) =~= seq![ValueView::Int(id as int)] + Seq::new(
        done.len(),
        |i: int| request.value_of(done[i]),
    ));

    text.append(" WHERE id = ");
    push_placeholder(&mut text, 1);
    proof {
        update_is_balanced(id as int, request);
    }
    Some(Statement { text, values })
}

/// One more assignment after the clauses for `done` gives the clauses for
/// `done` with `field` added.
proof fn lemma_set_list_push(done: Seq<Field>, field: Field, head: Seq<char>, text: Seq<char>)
    requires
        text == head + set_list(done, 2) + separator(done.len()) + assignment(
            field,
            (done.len() + 2) as nat,
        ),
    ensures
        text == head + set_list(done.push(field), 2),
{
    let more = done.push(field);
    assert(more.drop_last() =~= done);
    assert(more.last() == field);
    assert(text =~= head + set_list(more, 2));
}

/// Whether `piece` stands somewhere in `text`.
pub open spec fn occurs_in(piece: Seq<char>, text: Seq<char>) -> bool {
    exists|before: Seq<char>, after: Seq<char>| text == before + piece + after
}

/// The placeholder from which the update statement for `patch` assigns the
/// field at position `i` of the present fields.
pub open spec fn placeholder_of(i: int) -> nat {
    (i + 2) as nat
}

/// A column name holds no dollar sign.
proof fn lemma_column_plain(field: Field)
    ensures
        plain(column_name(field)),
{
    reveal_strlit("name");
    reveal_strlit("coffee_name");
    reveal_strlit("size");
    reveal_strlit("total");
}

/// An assignment clause holds exactly one placeholder.
proof fn lemma_count_assignment(field: Field, index: nat)
    ensures
        placeholder_count(assignment(field, index)) == 1,
{
    reveal_strlit(" = ");
    lemma_column_plain(field);
    lemma_count_plain(column_name(field));
    lemma_count_plain(" = "@);
    lemma_count_placeholder(index);
    lemma_count_concat(column_name(field), " = "@);
    lemma_count_concat(column_name(field) + " = "@, placeholder(index));
}

/// A list of assignment clauses holds one placeholder for each field.
proof fn lemma_count_set_list(fields: Seq<Field>, first: nat)
    ensures
        placeholder_count(set_list(fields, first)) == fields.len(),
    decreases fields.len(),
{
    if fields.len() > 0 {
        let front = set_list(fields.drop_last(), first);
        let comma = separator((fields.len() - 1) as nat);
        let clause = assignment(fields.last(), (first + fields.len() - 1) as nat);
        reveal_strlit(", ");
        lemma_count_set_list(fields.drop_last(), first);
        lemma_count_plain(comma);
        lemma_count_assignment(fields.last(), (first + fields.len() - 1) as nat);
        lemma_count_concat(front, comma);
        lemma_count_concat(front + comma, clause);
    }
}

/// The update statement is balanced: its text holds exactly one placeholder
/// for each bound value, which is one for the identifier and one for each
/// present field.
pub proof fn update_is_balanced(id: int, patch: PatchView)
    ensures
        placeholder_count(update_text(patch)) == update_values(id, patch).len(),
        update_values(id, patch).len() == patch.present().len() + 1,
{
    let head = "UPDATE orders SET "@;
    let list = set_list(patch.present(), 2);
    let filter = " WHERE id = "@;
    reveal_strlit("UPDATE orders SET ");
    reveal_strlit(" WHERE id = ");
    lemma_count_plain(head);
    lemma_count_plain(filter);
    lemma_count_set_list(patch.present(), 2);
    lemma_count_placeholder(1);
    lemma_count_concat(head, list);
    lemma_count_concat(head + list, filter);
    lemma_count_concat(head + list + filter, placeholder(1));
}

/// With exactly one field present, the update statement holds two
/// placeholders and binds two values: the identifier, then the new value of
/// that field. The field is assigned from placeholder 2.
pub proof fn single_field_update(id: int, patch: PatchView)
    requires
        patch.present().len() == 1,
    ensures
        patch.has(patch.present()[0]),
        placeholder_count(update_text(patch)) == 2,
        update_values(id, patch) == seq![ValueView::Int(id), patch.value_of(patch.present()[0])],
        update_text(patch) == "UPDATE orders SET "@ + assignment(patch.present()[0], 2)
            + " WHERE id = "@ + placeholder(1),
{
    let fields = patch.present();
    update_is_balanced(id, patch);
    assert(update_values(id, patch) =~= seq![ValueView::Int(id), patch.value_of(fields[0])]);
    assert(fields.drop_last() =~= Seq::<Field>::empty());
    assert(set_list(fields, 2) =~= assignment(fields[0], 2)) by {
        reveal_with_fuel(set_list, 2);
    }
}

/// With all four fields present, the update statement holds five
/// placeholders and binds the identifier, name, coffee_name, size and total,
/// in this order; the fields are assigned from placeholders 2 to 5.
pub proof fn full_update(id: int, patch: PatchView)
    requires
        patch.name is Some,
        patch.coffee_name is Some,
        patch.size is Some,
        patch.total is Some,
    ensures
        placeholder_count(update_text(patch)) == 5,
        update_values(id, patch) == seq![
            ValueView::Int(id),
            ValueView::Text(patch.name->0),
            ValueView::Text(patch.coffee_name->0),
            ValueView::Text(patch.size->0),
            ValueView::Int(patch.total->0),
        ],
        update_text(patch) == "UPDATE orders SET "@ + assignment(Field::Name, 2) + ", "@
            + assignment(Field::CoffeeName, 3) + ", "@ + assignment(Field::Size, 4) + ", "@
            + assignment(Field::Total, 5) + " WHERE id = "@ + placeholder(1),
{
    let fields = patch.present();
    let all = seq![Field::Name, Field::CoffeeName, Field::Size, Field::Total];
    assert(fields =~= all);
    update_is_balanced(id, patch);
    assert(update_values(id, patch) =~= seq![
        ValueView::Int(id),
        ValueView::Text(patch.name->0),
        ValueView::Text(patch.coffee_name->0),
        ValueView::Text(patch.size->0),
        ValueView::Int(patch.total->0),
    ]);
    let three = seq![Field::Name, Field::CoffeeName, Field::Size];
    let two = seq![Field::Name, Field::CoffeeName];
    let one = seq![Field::Name];
    assert(all.drop_last() =~= three);
    assert(three.drop_last() =~= two);
    assert(two.drop_last() =~= one);
    assert(one.drop_last() =~= Seq::<Field>::empty());
    assert(set_list(one, 2) =~= assignment(Field::Name, 2)) by {
        reveal_with_fuel(set_list, 2);
    }
    assert(set_list(two, 2) =~= set_list(one, 2) + ", "@ + assignment(Field::CoffeeName, 3));
    assert(set_list(three, 2) =~= set_list(two, 2) + ", "@ + assignment(Field::Size, 4));
    assert(set_list(all, 2) =~= set_list(three, 2) + ", "@ + assignment(Field::Total, 5));
    assert(update_text(patch) =~= "UPDATE orders SET "@ + assignment(Field::Name, 2) + ", "@
        + assignment(Field::CoffeeName, 3) + ", "@ + assignment(Field::Size, 4) + ", "@
        + assignment(Field::Total, 5) + " WHERE id = "@ + placeholder(1));
}

/// The clause for the field at position `i` stands in the list of clauses,
/// with the placeholder index `first + i`.
proof fn lemma_clause_occurs(fields: Seq<Field>, first: nat, i: int)
    requires
        0 <= i < fields.len(),
    ensures
        occurs_in(assignment(fields[i], (first + i) as nat), set_list(fields, first)),
    decreases fields.len(),
{
    let piece = assignment(fields[i], (first + i) as nat);
    let front = set_list(fields.drop_last(), first);
    let comma = separator((fields.len() - 1) as nat);
    let clause = assignment(fields.last(), (first + fields.len() - 1) as nat);
    if i == fields.len() - 1 {
        let before = front + comma;
        let after = Seq::<char>::empty();
        assert(set_list(fields, first) =~= before + piece + after);
    } else {
        lemma_clause_occurs(fields.drop_last(), first, i);
        let (b, a) = choose|b: Seq<char>, a: Seq<char>| front == b + piece + a;
        let after = a + comma + clause;
        assert(set_list(fields, first) =~= b + piece + after);
    }
}

/// Placeholders and bound values correspond. The value at position 0 is the
/// identifier, which the text compares with placeholder 1. For the present
/// field at position `i`, the text holds the clause that assigns the field
/// from placeholder `i + 2`, and the value bound at that placeholder's
/// position, `i + 1`, is the new value of that very field.
pub proof fn placeholders_match_values(id: int, patch: PatchView, i: int)
    requires
        0 <= i < patch.present().len(),
    ensures
        update_values(id, patch)[0] == ValueView::Int(id),
        occurs_in(" WHERE id = "@ + placeholder(1), update_text(patch)),
        patch.has(patch.present()[i]),
        occurs_in(assignment(patch.present()[i], placeholder_of(i)), update_text(patch)),
        update_values(id, patch)[placeholder_of(i) - 1] == patch.value_of(patch.present()[i]),
{
    let fields = patch.present();
    let head = "UPDATE orders SET "@;
    let tail = " WHERE id = "@ + placeholder(1);
    let piece = assignment(fields[i], placeholder_of(i));
    lemma_clause_occurs(fields, 2, i);
    let (b, a) = choose|b: Seq<char>, a: Seq<char>| set_list(fields, 2) == b + piece + a;
    assert(update_text(patch) =~= (head + b) + piece + (a + tail));
    assert(update_text(patch) =~= (head + set_list(fields, 2)) + tail + Seq::<char>::empty());
}

/// No value reaches the statement text: two patches with the same fields
/// present give the same text, whatever the new values are.
pub proof fn text_ignores_values(a: PatchView, b: PatchView)
    requires
        forall|field: Field| a.has(field) == b.has(field),
    ensures
        update_text(a) == update_text(b),
{
    assert(a.has(Field::Name) == b.has(Field::Name));
    assert(a.has(Field::CoffeeName) == b.has(Field::CoffeeName));
    assert(a.has(Field::Size) == b.has(Field::Size));
    assert(a.has(Field::Total) == b.has(Field::Total));
    assert(a.present() =~= b.present());
}

} // verus!
