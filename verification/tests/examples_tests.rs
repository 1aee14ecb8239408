use rumbas::examples::Examples;
use rumbas::value::{TemplateString, Value, ValueType};

#[derive(Clone, Copy, PartialEq, Debug)]
struct Bool(bool);
impl Examples for Bool {
    fn examples() -> Vec<Self> {
        vec![Bool(true), Bool(false)]
    }
}

#[derive(Clone, Copy, PartialEq, Debug)]
struct Usize(usize);
impl Examples for Usize {
    fn examples() -> Vec<Self> {
        vec![Usize(0), Usize(1), Usize(5), Usize(10)]
    }
}

#[derive(Clone, PartialEq, Debug)]
struct Text(String);
impl Examples for Text {
    fn examples() -> Vec<Self> {
        vec![Text("some text".to_string()), Text("other text".to_string())]
    }
}

#[derive(Clone, Copy, PartialEq, Debug)]
struct Isize(isize);
impl Examples for Isize {
    fn examples() -> Vec<Self> {
        vec![Isize(-1), Isize(1), Isize(-10), Isize(10)]
    }
}

fn example_template() -> TemplateString {
    TemplateString::from_text("template:template_key").unwrap()
}

#[test]
fn valuetype_test() {
    let examples = Bool::examples();
    assert_eq!(
        ValueType::<Bool>::examples(),
        vec![
            ValueType::Normal(examples[0]),
            ValueType::Normal(examples[1]),
            ValueType::Template(example_template())
        ]
    )
}

#[test]
fn value_test() {
    let valuetype_examples = ValueType::<Usize>::examples();
    assert_eq!(
        Value::<Usize>::examples(),
        vec![
            Value(Some(valuetype_examples[0].clone())),
            Value(Some(valuetype_examples[1].clone())),
            Value(Some(valuetype_examples[2].clone())),
            Value(Some(valuetype_examples[3].clone())),
            Value(Some(valuetype_examples[4].clone())),
            Value(None)
        ]
    )
}

#[test]
fn tuple_test_one() {
    let usize_examples = Usize::examples();
    assert_eq!(
        <(Usize,)>::examples(),
        vec![
            (usize_examples[0],),
            (usize_examples[1],),
            (usize_examples[2],),
            (usize_examples[3],)
        ]
    )
}

#[test]
fn tuple_test_two() {
    let usize_examples = Usize::examples();
    let string_examples = Text::examples();
    assert_eq!(
        <(Usize, Text)>::examples(),
        vec![
            (usize_examples[0], string_examples[0].clone()),
            (usize_examples[1], string_examples[1].clone()),
            (usize_examples[2], string_examples[0].clone()),
            (usize_examples[3], string_examples[1].clone())
        ]
    )
}

#[test]
fn tuple_test_three() {
    let usize_examples = Usize::examples();
    let string_examples = Text::examples();
    assert_eq!(
        <(Usize, Text, Text)>::examples(),
        vec![
            (usize_examples[0], string_examples[0].clone(), string_examples[0].clone()),
            (usize_examples[1], string_examples[1].clone(), string_examples[1].clone()),
            (usize_examples[2], string_examples[0].clone(), string_examples[0].clone()),
            (usize_examples[3], string_examples[1].clone(), string_examples[1].clone())
        ]
    )
}

#[test]
fn array_test_one() {
    let isize_examples = Isize::examples();
    assert_eq!(
        <[Isize; 1]>::examples(),
        vec![
            [isize_examples[0]],
            [isize_examples[1]],
            [isize_examples[2]],
            [isize_examples[3]],
        ]
    )
}

#[test]
fn array_test_two() {
    let isize_examples = Isize::examples();
    assert_eq!(
        <[Isize; 2]>::examples(),
        vec![
            [isize_examples[0], isize_examples[1]],
            [isize_examples[2], isize_examples[3]],
        ]
    )
}

#[test]
fn array_test_three() {
    let isize_examples = Isize::examples();
    assert_eq!(
        <[Isize; 3]>::examples(),
        vec![
            [isize_examples[0], isize_examples[1], isize_examples[2]],
            [isize_examples[3], isize_examples[0], isize_examples[1]],
        ]
    )
}

#[test]
fn array_test_four() {
    let isize_examples = Isize::examples();
    assert_eq!(
        <[Isize; 4]>::examples(),
        vec![[isize_examples[0], isize_examples[1], isize_examples[2], isize_examples[3]],]
    )
}

#[test]
fn array_test_five() {
    let isize_examples = Isize::examples();
    assert_eq!(
        <[Isize; 5]>::examples(),
        vec![[
            isize_examples[0],
            isize_examples[1],
            isize_examples[2],
            isize_examples[3],
            isize_examples[0]
        ],]
    )
}

#[test]
fn box_test() {
    let examples = Bool::examples();
    assert_eq!(
        Box::<Bool>::examples(),
        vec![Box::new(examples[0]), Box::new(examples[1]),]
    )
}

#[test]
fn primitive_examples() {
    assert_eq!(u8::examples(), vec![2u8]);
    assert_eq!(usize::examples(), vec![2usize]);
    assert_eq!(i64::examples(), vec![-1i64]);
    assert_eq!(bool::examples(), vec![false]);
    assert_eq!(String::examples(), vec!["nonjmetext§".to_string()]);
}

/// A floating point number with the examples that rumbas gives `f64`.
#[derive(Clone, Copy, PartialEq, Debug)]
struct F64(f64);
impl Examples for F64 {
    fn examples() -> Vec<Self> {
        vec![F64(1.2)]
    }
}

#[test]
fn vec_test() {
    let f64_examples = F64::examples();
    assert_eq!(<Vec<F64>>::examples(), vec![f64_examples]);
}

#[test]
fn vec_of_examples_is_one_example() {
    assert_eq!(<Vec<Bool>>::examples(), vec![vec![Bool(true), Bool(false)]]);
}

#[derive(Clone, Copy, PartialEq, Debug, Hash, Eq, PartialOrd, Ord)]
struct Key(usize);
impl Examples for Key {
    fn examples() -> Vec<Self> {
        vec![Key(0), Key(1), Key(5), Key(10)]
    }
}

#[derive(Clone, Copy, PartialEq, Debug)]
struct Usize2(usize);
impl Examples for Usize2 {
    fn examples() -> Vec<Self> {
        vec![Usize2(0), Usize2(1), Usize2(5), Usize2(10), Usize2(15)]
    }
}

#[derive(Clone, PartialEq, Debug, Hash, Eq, PartialOrd, Ord)]
struct KeyText(String);
impl Examples for KeyText {
    fn examples() -> Vec<Self> {
        vec![KeyText("some text".to_string()), KeyText("other text".to_string())]
    }
}

#[test]
fn hashmap_test_exact_multiple_of_values() {
    let string_examples = KeyText::examples();
    let usize_examples = Usize::examples();
    assert_eq!(usize_examples.len() % string_examples.len(), 0);
    assert_eq!(
        <std::collections::HashMap<KeyText, Usize>>::examples(),
        vec![
            vec![
                (string_examples[0].clone(), usize_examples[0]),
                (string_examples[1].clone(), usize_examples[1])
            ]
            .into_iter()
            .collect(),
            vec![
                (string_examples[0].clone(), usize_examples[2]),
                (string_examples[1].clone(), usize_examples[3])
            ]
            .into_iter()
            .collect()
        ]
    )
}

#[test]
fn hashmap_test_less_values() {
    let usize_examples = Key::examples();
    let string_examples = Text::examples();
    assert!(usize_examples.len() > string_examples.len());
    assert_eq!(
        <std::collections::HashMap<Key, Text>>::examples(),
        vec![vec![
            (usize_examples[0], string_examples[0].clone()),
            (usize_examples[1], string_examples[1].clone()),
            (usize_examples[2], string_examples[0].clone()),
            (usize_examples[3], string_examples[1].clone())
        ]
        .into_iter()
        .collect()]
    )
}

#[test]
fn hashmap_test_non_exact_multiple_of_values() {
    let string_examples = KeyText::examples();
    let usize_examples = Usize2::examples();
    assert!(usize_examples.len() % string_examples.len() != 0);
    assert!(usize_examples.len() > string_examples.len());
    assert_eq!(
        <std::collections::HashMap<KeyText, Usize2>>::examples(),
        vec![
            vec![
                (string_examples[0].clone(), usize_examples[0]),
                (string_examples[1].clone(), usize_examples[1])
            ]
            .into_iter()
            .collect(),
            vec![
                (string_examples[0].clone(), usize_examples[2]),
                (string_examples[1].clone(), usize_examples[3])
            ]
            .into_iter()
            .collect(),
            vec![(string_examples[0].clone(), usize_examples[4]),]
                .into_iter()
                .collect()
        ]
    )
}

#[test]
fn btreemap_examples_split_values_over_maps() {
    let keys = KeyText::examples();
    let values = Usize2::examples();
    let maps = <std::collections::BTreeMap<KeyText, Usize2>>::examples();
    assert_eq!(maps.len(), 3);
    assert_eq!(maps[0].get(&keys[0]), Some(&values[0]));
    assert_eq!(maps[1].get(&keys[1]), Some(&values[3]));
    assert_eq!(maps[2].len(), 1);
    assert_eq!(maps[2].get(&keys[0]), Some(&values[4]));
}
