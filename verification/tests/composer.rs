use coffee_orders::composer::compose;
use coffee_orders::model::{Field, Patch, Value};
use coffee_orders::statement::{push_decimal, push_placeholder, Statement};

fn text(s: &str) -> Option<String> {
    Some(s.to_string())
}

fn composed(id: i32, patch: Patch) -> Statement {
    match compose(id, patch) {
        Some(statement) => statement,
        None => panic!("no statement composed"),
    }
}

fn dollars(text: &str) -> usize {
    text.chars().filter(|c| *c == '$').count()
}

#[test]
fn empty_patch_composes_nothing() {
    assert_eq!(compose(1, Patch::empty()), None);
    assert_eq!(
        compose(-9, Patch { name: None, coffee_name: None, size: None, total: None }),
        None
    );
}

#[test]
fn name_alone() {
    let patch = Patch { name: text("Ann"), coffee_name: None, size: None, total: None };
    let statement = composed(7, patch);
    assert_eq!(statement.text, "UPDATE orders SET name = $2 WHERE id = $1");
    assert_eq!(statement.values, vec![Value::Int(7), Value::Text("Ann".to_string())]);
    assert_eq!(dollars(&statement.text), 2);
}

#[test]
fn coffee_name_alone() {
    let patch = Patch { name: None, coffee_name: text("Mocha"), size: None, total: None };
    let statement = composed(8, patch);
    assert_eq!(statement.text, "UPDATE orders SET coffee_name = $2 WHERE id = $1");
    assert_eq!(statement.values, vec![Value::Int(8), Value::Text("Mocha".to_string())]);
    assert_eq!(dollars(&statement.text), 2);
}

#[test]
fn size_alone() {
    let patch = Patch { name: None, coffee_name: None, size: text("L"), total: None };
    let statement = composed(9, patch);
    assert_eq!(statement.text, "UPDATE orders SET size = $2 WHERE id = $1");
    assert_eq!(statement.values, vec![Value::Int(9), Value::Text("L".to_string())]);
    assert_eq!(dollars(&statement.text), 2);
}

#[test]
fn total_alone() {
    let patch = Patch { name: None, coffee_name: None, size: None, total: Some(300) };
    let statement = composed(10, patch);
    assert_eq!(statement.text, "UPDATE orders SET total = $2 WHERE id = $1");
    assert_eq!(statement.values, vec![Value::Int(10), Value::Int(300)]);
    assert_eq!(dollars(&statement.text), 2);
}

#[test]
fn all_four_fields() {
    let patch = Patch {
        name: text("Ann"),
        coffee_name: text("Latte"),
        size: text("M"),
        total: Some(450),
    };
    let statement = composed(3, patch);
    assert_eq!(
        statement.text,
        "UPDATE orders SET name = $2, coffee_name = $3, size = $4, total = $5 WHERE id = $1"
    );
    assert_eq!(
        statement.values,
        vec![
            Value::Int(3),
            Value::Text("Ann".to_string()),
            Value::Text("Latte".to_string()),
            Value::Text("M".to_string()),
            Value::Int(450),
        ]
    );
    assert_eq!(dollars(&statement.text), 5);
}

#[test]
fn absent_fields_leave_no_gap_in_the_numbering() {
    let patch = Patch { name: text("Bo"), coffee_name: None, size: None, total: Some(1) };
    let statement = composed(4, patch);
    assert_eq!(statement.text, "UPDATE orders SET name = $2, total = $3 WHERE id = $1");
    assert_eq!(
        statement.values,
        vec![Value::Int(4), Value::Text("Bo".to_string()), Value::Int(1)]
    );

    let patch = Patch { name: None, coffee_name: text("Flat white"), size: text("S"), total: None };
    let statement = composed(5, patch);
    assert_eq!(statement.text, "UPDATE orders SET coffee_name = $2, size = $3 WHERE id = $1");
    assert_eq!(
        statement.values,
        vec![Value::Int(5), Value::Text("Flat white".to_string()), Value::Text("S".to_string())]
    );
}

#[test]
fn identifier_is_always_bound_first() {
    for id in [i32::MIN, -1, 0, 1, i32::MAX] {
        let patch = Patch { name: None, coffee_name: None, size: None, total: Some(id) };
        let statement = composed(id, patch);
        assert_eq!(statement.values[0], Value::Int(id));
        assert_eq!(statement.text, "UPDATE orders SET total = $2 WHERE id = $1");
    }
}

#[test]
fn every_pattern_is_balanced() {
    for mask in 1u8..16 {
        let patch = Patch {
            name: if mask & 1 != 0 { text("n") } else { None },
            coffee_name: if mask & 2 != 0 { text("c") } else { None },
            size: if mask & 4 != 0 { text("s") } else { None },
            total: if mask & 8 != 0 { Some(11) } else { None },
        };
        let present = patch.count();
        assert_eq!(present, mask.count_ones() as usize);
        let statement = composed(1, patch);
        assert_eq!(statement.values.len(), present + 1);
        assert_eq!(dollars(&statement.text), statement.values.len());
        for index in 1..=statement.values.len() {
            assert!(statement.text.contains(&format!("${}", index)));
        }
        assert!(!statement.text.contains(&format!("${}", statement.values.len() + 1)));
    }
}

#[test]
fn values_never_reach_the_text() {
    let hostile = "x', total = 0 WHERE 1 = 1; DROP TABLE orders; -- $9";
    let patch = Patch { name: text(hostile), coffee_name: None, size: text("$2"), total: None };
    let statement = composed(2, patch);
    assert_eq!(statement.text, "UPDATE orders SET name = $2, size = $3 WHERE id = $1");
    assert_eq!(
        statement.values,
        vec![Value::Int(2), Value::Text(hostile.to_string()), Value::Text("$2".to_string())]
    );

    let plain = Patch { name: text("Ann"), coffee_name: None, size: text("M"), total: None };
    assert_eq!(composed(2, plain).text, statement.text);
}

#[test]
fn empty_string_is_a_present_value() {
    let patch = Patch { name: text(""), coffee_name: None, size: None, total: None };
    assert!(!patch.is_empty());
    let statement = composed(6, patch);
    assert_eq!(statement.text, "UPDATE orders SET name = $2 WHERE id = $1");
    assert_eq!(statement.values, vec![Value::Int(6), Value::Text(String::new())]);
}

#[test]
fn patch_presence() {
    let patch = Patch { name: text("Ann"), coffee_name: None, size: None, total: Some(2) };
    assert!(patch.has(Field::Name));
    assert!(!patch.has(Field::CoffeeName));
    assert!(!patch.has(Field::Size));
    assert!(patch.has(Field::Total));
    assert!(!patch.is_empty());
    assert_eq!(patch.count(), 2);

    let none = Patch::empty();
    assert!(none.is_empty());
    assert_eq!(none.count(), 0);
    assert_eq!(none, Patch { name: None, coffee_name: None, size: None, total: None });
}

#[test]
fn column_names() {
    assert_eq!(Field::Name.column(), "name");
    assert_eq!(Field::CoffeeName.column(), "coffee_name");
    assert_eq!(Field::Size.column(), "size");
    assert_eq!(Field::Total.column(), "total");
}

#[test]
fn decimal_rendering() {
    for (n, expected) in [
        (0u32, "0"),
        (7, "7"),
        (9, "9"),
        (10, "10"),
        (42, "42"),
        (100, "100"),
        (1905, "1905"),
        (u32::MAX, "4294967295"),
    ] {
        let mut text = String::from("n=");
        push_decimal(&mut text, n);
        assert_eq!(text, format!("n={}", expected));
    }
}

#[test]
fn placeholder_rendering() {
    let mut text = String::new();
    push_placeholder(&mut text, 1);
    assert_eq!(text, "$1");
    push_placeholder(&mut text, 12);
    assert_eq!(text, "$1$12");
}
