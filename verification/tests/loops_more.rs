use aulas::generics::{add_valor, Person as FriendlyPerson};
use aulas::patterns::{describe_list, pop_messages, stringfy_color, stringfy_state, sum_first_last, Color, State};
use aulas::person::Person;
use aulas::ring_generic::{ProtoIterator, RingPointer};
use aulas::storage::v2::{driver_test_routine, Storage};
use aulas::storage::{SDCard, SPIFlash};
use aulas::texts::{u8_to_text_pt_br, u8_to_text_pt_br_rs};
use std::time::Duration;

#[test]
fn while_simple() {
    let mut slice: &[u8] = &[6, 7, 8, 9, 5, 4, 3, 2, 1];
    let mut items = String::from("Items: [");
    while slice.len() > 0 {
        items += &format!("{}, ", slice[0]);
        slice = &slice[1..];
    }
    println!("{}]", items);
}

#[test]
fn while_c_like() {
    let arr = [0, 1, 2, 3, 4, 5, 6, 7, 8, 9];

    let mut i = 0;

    let mut items = String::from("Items: [");
    while i < arr.len() {
        items += &format!("{}, ", arr[i]);
        i += 1;
    }
    println!("{}]", items);
}

#[test]
fn while_let() {
    let mut range = 0..10;

    let mut items = String::from("Items: [");
    while let Some(value) = range.next() {
        items += &format!("{}, ", value);
    }
    println!("{}]", items);
}

#[test]
fn for_simple() {
    let mut items = String::from("Items: [");
    for i in 0..10 {
        items += &format!("{i}, ");
    }
    println!("{}]", items);

    let mut items = String::from("Items: [");
    for i in String::from("hello world").chars() {
        items += &format!("{:#?}, ", i);
    }
    println!("{}]", items);

    let mut items = String::from("Items: [");
    for i in [10, 20, 30, 40] {
        items += &format!("{i}, ");
    }
    println!("{}]", items);

    let v: Vec<i64> = vec![6, 7, 8, 9, 5, 4, 3, 2, 1];
    let mut items = String::from("Items: [");
    for i in v {
        items += &format!("{i}, ");
    }
    println!("{}]", items);
}

#[test]
fn loop_simple() {
    let mut i = 0;

    let mut items = String::from("Items: [");

    loop {
        items += &format!("{i}, ");

        if i == 10 {
            break;
        } else {
            i += 1;
        }
    }
    println!("{}]", items);
}

#[test]
fn loop_complex() {
    let mut i = 0;

    let mut items = String::from("Items: [");

    'outer_loop: loop {
        loop {
            items += &format!("{i}, ");

            if i == 10 {
                break 'outer_loop;
            } else {
                i += 1;
            }
        }
    }
    println!("{}]", items);
}

#[test]
fn match_simple() {
    assert_eq!("um", u8_to_text_pt_br(1));
    assert_eq!("três", u8_to_text_pt_br(3));
    assert_eq!("outro", u8_to_text_pt_br(8));
    assert_eq!("outro", u8_to_text_pt_br(0));
    assert_eq!("um", u8_to_text_pt_br_rs(1));
    assert_eq!("entre três e seis", u8_to_text_pt_br_rs(3));
    assert_eq!("entre sete e nove", u8_to_text_pt_br_rs(8));
    assert_eq!("Dez ou cem", u8_to_text_pt_br_rs(100));
}

fn check_user_hat(user: (&str, char)) {
    match user {
        (user_name, '🤠') => println!("{user_name} has a hat!"),
        user_has_no_hat => println!("No hats with {}", user_has_no_hat.0),
    };
}

#[test]
fn match_tuple() {
    let jack = ("Jack", '🤠');
    let john = ("John", '🙂');
    let mary = ("Mary", '👧');

    check_user_hat(jack);
    check_user_hat(john);
    check_user_hat(mary);
}

#[test]
fn match_binding() {
    let age = 75;

    let result = match age {
        a @ 0..=19 => format!("Jovem de {a}"),
        a @ 20..=59 => format!("Adulto de {a}"),
        a @ 75 => format!("Aposentado de {a}"),
        a => format!("Idoso de {a}"),
    };

    println!("{result} anos é destaque na matéria.");
}

#[test]
fn match_arrays() {
    let list: &[u8] = &[1, 2, 3, 4, 5, 6];
    match list {
        [first, second, ..] => println!("First: {first}, second: {second}"),
        [first] => println!("Only first: {first}"),
        [] => println!("No items"),
    }

    assert_eq!(describe_list(list), "First: 1, second: 2");
}

#[test]
fn match_arrays_functional() {
    let mut list: &[u8] = &[1, 2, 3, 4];

    loop {
        match list {
            [head, tail @ ..] if tail.len() > 0 => {
                println!("pop: {head}");
                list = tail;
            }
            [head] => {
                println!("pop tail: {}", head);
                break;
            }
            [..] => {
                unreachable!()
            }
        }
    }

    let msgs = pop_messages(&[1, 2, 3, 4]);
    assert_eq!(msgs.first().unwrap(), "pop: 1");
    assert_eq!(msgs.last().unwrap(), "pop tail: 4");
}

#[test]
fn match_arrays_functional_sum() {
    let mut list: &[u8] = &[3, 31, 2, 3, 4, 5, 6, 7];

    let mut total = 0;
    loop {
        match list {
            [first, middle @ .., last] => {
                total += first + last;
                println!("first + last = {}", first + last);
                list = middle;
            }
            [first] => {
                total += first;
                println!("first = {}", first);
                break;
            }
            _ => {
                break;
            }
        }
    }
    println!("Total {total}");

    assert_eq!(total as u64, sum_first_last(&[3, 31, 2, 3, 4, 5, 6, 7]));
}

#[test]
fn match_enum_simple() {
    println!("{}", stringfy_state(State::Open));
    println!("{}", stringfy_state(State::Closing));
    println!("{}", stringfy_state(State::Closed));
    println!("{}", stringfy_state(State::Opening));
}

#[test]
fn match_enum_complex() {
    let color = Color::Black;
    println!("{}", stringfy_color(color));
    let color = Color::White;
    println!("{}", stringfy_color(color));
    let color = Color::RGB(0, 0, 0);
    println!("{}", stringfy_color(color));
    let color = Color::RGB(255, 255, 255);
    println!("{}", stringfy_color(color));
    let color = Color::RGB(25, 1, 255);
    println!("{}", stringfy_color(color));
    let color = Color::RGB(254, 0, 255);
    println!("{}", stringfy_color(color));
    let color = Color::RGB(255, 0, 255);
    println!("{}", stringfy_color(color));
    let color = Color::RGB(10, 10, 0);
    println!("{}", stringfy_color(color));
    let color = Color::ARGB(0xFF, 10, 10, 0);
    println!("{}", stringfy_color(color));
    let color = Color::CMYK(0, 0, 0, 0);
    println!("{}", stringfy_color(color));
    let color = Color::CMYK(0, 0, 0, 100);
    println!("{}", stringfy_color(color));
    let color = Color::CMYK(1, 2, 3, 4);
    println!("{}", stringfy_color(color));
}

#[test]
fn invalid_1mut_1imut() {}

#[test]
fn valid_1mut_1imut() {
    let mut p = Person::new("Matheus");

    let name = p.get_name();
    p.set_name("Marcos");
}

fn set_to_marcos(p2: &mut Person, old_name: &str) {
    p2.set_name("Marcos");
    println!("Changing from {old_name} to {}", p2.get_name());
}

#[test]
fn valid_func_mut_ref() {
    let mut p = Person::new("Matheus");

    let name = p.get_name().to_string();
    set_to_marcos(&mut p, &name);
}

fn remove_lucas_1(people: &mut Vec<Person>) {
    let mut counter = 0;
    let mut index_to_del = 0xFF_FF_FF_FF;

    for person in people.iter() {
        if person.get_name() == "Lucas" {
            index_to_del = counter;
            break;
        }

        counter += 1;
    }

    if index_to_del != 0xFF_FF_FF_FF {
        people.remove(index_to_del);
    }
}

fn remove_lucas_2(people: &mut Vec<Person>) {
    if let Some(lucas_pos) = people.iter().position(|x| x.get_name() == "Lucas") {
        people.remove(lucas_pos);
    }
}

fn remove_lucas_3(people: Vec<Person>) -> Vec<Person> {
    people
        .into_iter()
        .filter(|x| x.get_name() != "Lucas")
        .collect()
}

#[test]
fn invalid_for_loop() {}

#[test]
fn valid_for_loop() {
    let mut people = vec![
        Person::new("Matheus"),
        Person::new("Marcos"),
        Person::new("Lucas"),
        Person::new("João"),
    ];
    let mut people2 = people.clone();
    let mut people3 = people.clone();

    remove_lucas_1(&mut people);
    println!("remove_lucas_1: {:?}", people);

    remove_lucas_2(&mut people2);
    println!("remove_lucas_2: {:?}", people2);

    println!("remove_lucas_3: {:?}", remove_lucas_3(people3));
}

fn remove_lucas(people: &mut Vec<Person>) {
    let mut counter = 0;
    let mut cursor = &people[..];

    while !cursor.is_empty() {
        let person = &cursor[0];

        if person.get_name() == "Lucas" {
            people.remove(counter);
            break;
        }

        counter += 1;
        cursor = &cursor[1..];
    }
}

#[test]
fn valid_while() {
    let mut people = vec![
        Person::new("Matheus"),
        Person::new("Marcos"),
        Person::new("Lucas"),
        Person::new("João"),
    ];

    remove_lucas(&mut people);
}

enum PersonAgeGroup {
    Child { age: u8 },
    Young { free_time: Duration },
    Adult { money: f32 },
}

#[test]
fn invalid_if_let() {}

#[test]
fn valid_if_let() {
    let mut people = vec![
        PersonAgeGroup::Child { age: 7 },
        PersonAgeGroup::Young {
            free_time: Duration::from_secs(60 * 60 * 8),
        },
        PersonAgeGroup::Adult { money: 12_000.0 },
    ];

    if let PersonAgeGroup::Child { age } = people.last_mut().unwrap() {
        *age += 1;
    }
    if let PersonAgeGroup::Child { age } = people.last().unwrap() {
        people.push(PersonAgeGroup::Child { age: *age });
    }

    let (is_child, age) = if let PersonAgeGroup::Child { age } = people.last_mut().unwrap() {
        *age += 1;
        (true, *age)
    } else {
        (false, 0)
    };

    if is_child {
        people.push(PersonAgeGroup::Child { age });
    }
}

#[test]
fn test_add_valor() {
    let mut number_list = [0; 5];
    let result = add_valor(&mut number_list, 0, 10);
    println!("add_valor_i32 result: {result}, number_list: {number_list:?}");

    let mut char_list = ['\0'; 5];
    let result = add_valor(&mut char_list, 10, 'M');
    println!("add_valor_char result: {result}, char_list: {char_list:?}");
}

#[test]
fn test_drivers() {
    let mut sd_card = SDCard::new("sd://");
    let mut flash = SPIFlash::new(10);

    assert!(driver_test_routine(&mut sd_card));
    assert!(driver_test_routine(&mut flash));
}

#[test]
fn ring_pointer_empty() {
    let coll = vec![];
    let mut ring_ptr = RingPointer::new(&coll);

    assert_eq!(ring_ptr.next(), None);
}

#[test]
fn ring_pointer_one_element() {
    let coll = vec![1];
    let mut ring_ptr = RingPointer::new(&coll);

    assert_eq!(ring_ptr.next(), Some(1));
    assert_eq!(ring_ptr.next(), Some(1));
}

#[test]
fn ring_pointer_two_elements() {
    let coll = vec![1, 2];
    let mut ring_pointer = RingPointer::new(&coll);

    assert_eq!(ring_pointer.next(), Some(1));
    assert_eq!(ring_pointer.next(), Some(2));
    assert_eq!(ring_pointer.next(), Some(1));
}

#[test]
fn test_no_friends() {
    let person = FriendlyPerson::new("Matheus", []);

    println!("{:?}", person);
}
