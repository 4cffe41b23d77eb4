use aulas::patterns::{describe_list, pop_messages, stringfy_color, stringfy_state, sum_first_last, Color, State};
use aulas::texts::{u8_to_text_pt_br, u8_to_text_pt_br_rs};

fn inc(val: i32) -> i32 {
    let x = val + 1;
    x
}

#[test]
fn blocks() {
    let a = {
        let x = 10;
        x + 100
    };
    println!("{}", a);

    println!("{}", inc(10));
}

#[test]
fn blocks_simple() {
    let i: u8 = 150;
    let j: u8 = 130;
    let result = {
        let (res, ov) = i.overflowing_add(j);
        if ov {
            i
        } else {
            res
        }
    };
    println!("{}", result);
}

#[test]
fn labeled_break() {
    let i: u8 = 150;
    let j: u8 = 254;
    let result = 'calculation: {
        let (mut res, mut ov) = i.overflowing_add(j);
        if ov {
            (res, ov) = i.overflowing_add(j >> 1);
            println!("{}", &res);
            if ov {
                (res, ov) = i.overflowing_add(j >> 2);
                println!("{}", &res);
                if ov {
                    break 'calculation i;
                }
            }
        }
        res
    };
    println!("{}", result);
}

#[test]
fn if_literal() {
    if "" == "a" {
        println!("if");
    } else {
        println!("else");
    }
}

#[test]
fn if_else() {
    let x = 10;

    let result;
    if x > 0 {
        result = "MAIOR";
    } else {
        result = "menor";
    }

    println!("{}", result);
}

#[test]
fn if_else_block() {
    let x = 100;

    let result = if x > 0 { "MAIOR" } else { "menor" };

    println!("{}", result);
}

#[test]
fn if_elseif() {
    let x = 25;

    let result;
    if x > 50 {
        result = "maior";
    } else if x > 30 {
        result = "entre";
    } else {
        result = "menor";
    }

    assert_eq!("menor", result);
}

#[test]
fn if_elseif_block() {
    let x = 25;

    let result;
    if {
        let a = 50;
        x > a
    } {
        result = "maior";
    } else if x > 30 {
        result = "entre";
    } else {
        result = "menor";
    }

    assert_eq!("menor", result);
}

#[test]
fn if_else_complex_block() {
    let x = 25;

    let a = 'block: {
        if x < 100 {
            if x > 80 {
                break 'block 20;
            }
            break 'block 10;
        } else {
            5
        }
    };
    println!("a = {a}");
}

#[test]
fn if_elseif_one_line() {
    let x = 25;

    let result = if x > 50 {
        "maior"
    } else if x > 30 {
        "dentro"
    } else {
        "menor"
    };

    assert_eq!("menor", result);
}

fn check_user_hat(user: (&str, char)) {
    if let (user_name, '🤠') = user {
        println!("{user_name} has a hat!");
    } else {
        println!("No hats with {}", user.0);
    }
}

#[test]
fn if_let() {
    let jack = ("Jack", '🤠');
    let john = ("John", '🙂');
    let mary = ("Mary", '👧');

    check_user_hat(jack);
    check_user_hat(john);
    check_user_hat(mary);
}

#[test]
fn if_let_simple() {
    let i: u8 = 150;
    let j: u8 = 50;
    let result = if let (res, false) = i.overflowing_add(j) {
        res
    } else {
        i
    };
    println!("{}", result);
}

fn check_user_hat_let_else(user: (&str, char)) {
    let (user_name, '🤠') = user else {
        println!("No hats with {}", user.0);
        return;
    };
    println!("{user_name} has a hat!");
}

#[test]
fn let_else() {
    let jack = ("Jack", '🤠');
    let john = ("John", '🙂');
    let mary = ("Mary", '👧');

    check_user_hat_let_else(jack);
    check_user_hat_let_else(john);
    check_user_hat_let_else(mary);
}

#[test]
fn let_else_blocks_simple() {
    let i: u8 = 150;
    let j: u8 = 130;
    let result = 'calc: {
        let (res, false) = i.overflowing_add(j) else {
            break 'calc i;
        };
        res
    };
    println!("{}", result);
}

#[test]
fn main_while_simple() {
    let mut slice: &[u8] = &[6, 7, 8, 9, 5, 4, 3, 2, 1];
    let mut items = String::from("Items: [");
    while slice.len() > 0 {
        items += &format!("{}, ", slice[0]);
        slice = &slice[1..];
    }
    println!("{}]", items);
}

#[test]
fn main_while_c_like() {
    let arr = [0, 1, 2, 3, 4, 5, 6, 7, 8, 9];

    let mut i = 0;

    let mut items = String::from("Items: [");
    while i < arr.len() {
        items += &format!("{}, ", arr[i]);
        i += 1;
    }
    println!("{}]", items);
}

#[test]
fn main_while_let() {
    let slice: &[u8] = &[6, 7, 8, 9, 5, 4, 3, 2, 1];
    let mut range = 0..slice.len();

    let mut items = String::from("Items: [");
    while let Some(i) = range.next() {
        items += &format!("{}, ", slice[i]);
    }
    println!("{}]", items);
}

#[test]
fn while_let_iter() {
    let slice: &[u8] = &[6, 7, 8, 9, 5, 4, 3, 2, 1];
    let mut iter = slice.into_iter();

    let mut items = String::from("Items: [");
    while let Some(value) = iter.next() {
        items += &format!("{}, ", value);
    }
    println!("{}]", items);
}

#[test]
fn main_for_simple() {
    let mut items = String::from("Items: [");
    for i in 0..10 {
        items += &format!("{i}, ");
    }
    println!("{}]", items);

    let mut items = String::from("Items: [");
    for i in String::from("hello world").chars() {
        items += &format!("{:#?}, ", i);
    }
    println!("{}]", items);

    let mut items = String::from("Items: [");
    for i in [10, 20, 30, 40] {
        items += &format!("{i}, ");
    }
    println!("{}]", items);

    let v: Vec<i64> = vec![6, 7, 8, 9, 5, 4, 3, 2, 1];
    let mut items = String::from("Items: [");
    for i in v {
        items += &format!("{i}, ");
    }
    println!("{}]", items);
}

#[test]
fn main_loop_simple() {
    let mut i = 0;

    let mut items = String::from("Items: [");

    loop {
        items += &format!("{i}, ");

        if i == 10 {
            break;
        } else {
            i += 1;
        }
    }
    println!("{}]", items);
}

#[test]
fn main_loop_complex() {
    let mut i = 0;

    let mut items = String::from("Items: [");

    'outer_loop: loop {
        loop {
            items += &format!("{i}, ");

            if i == 10 {
                break 'outer_loop;
            } else {
                i += 1;
            }
        }
    }
    println!("{}]", items);
}

#[test]
fn main_match_simple() {
    assert_eq!("um", u8_to_text_pt_br(1));
    assert_eq!("três", u8_to_text_pt_br(3));
    assert_eq!("outro", u8_to_text_pt_br(8));
    assert_eq!("outro", u8_to_text_pt_br(0));
    assert_eq!("um", u8_to_text_pt_br_rs(1));
    assert_eq!("entre três e seis", u8_to_text_pt_br_rs(3));
    assert_eq!("entre sete e nove", u8_to_text_pt_br_rs(8));
    assert_eq!("Dez ou cem", u8_to_text_pt_br_rs(100));
}

fn check_user_hat_match(user: (&str, char)) {
    match user {
        (user_name, '🤠') => println!("{user_name} has a hat!"),
        user_has_no_hat => println!("No hats with {}", user_has_no_hat.0),
    };
}

#[test]
fn main_match_tuple() {
    let jack = ("Jack", '🤠');
    let john = ("John", '🙂');
    let mary = ("Mary", '👧');

    check_user_hat_match(jack);
    check_user_hat_match(john);
    check_user_hat_match(mary);
}

#[test]
fn match_plus_ifelse() {
    let x = 25;

    let result = match x {
        m if m > 50 => "maior",
        n if 0 <= n && n <= 30 => "entre",
        _ => "menor",
    };

    assert_eq!("entre", result);
}

#[test]
fn match_guards() {
    let x = 25;

    let result = match x {
        m if m > 30 => "maior",
        n if 20 <= n && n <= 30 => "entre",
        _ => "menor",
    };

    assert_eq!("entre", result);
}

#[test]
fn main_match_binding() {
    let age = 75;

    let result = match age {
        a @ 0..=19 => format!("Jovem de {a}"),
        a @ 20..=59 => format!("Adulto de {a}"),
        a @ 75 => format!("Aposentado de {a}"),
        a => format!("Idoso de {a}"),
    };

    println!("{result} anos é destaque na matéria.");
}

#[test]
fn main_match_arrays() {
    let list: &[u8] = &[1, 2, 3];

    match list {
        [first, second, ..] => println!("First: {first}, second: {second}"),
        [first] => println!("Only first: {first}"),
        [] => println!("No items"),
    }

    assert_eq!(describe_list(list), "First: 1, second: 2");
}

#[test]
fn main_match_arrays_functional() {
    let mut list: &[u8] = &[1, 2, 3, 4, 5, 6, 7];

    loop {
        match list {
            [head, tail @ ..] if tail.len() > 0 => {
                println!("pop: {head}");
                list = tail;
            }
            [head] => {
                println!("pop tail: {}", head);
                break;
            }
            _ => {
                unreachable!()
            }
        }
    }

    let msgs = pop_messages(&[1, 2, 3, 4, 5, 6, 7]);
    assert_eq!(msgs.first().unwrap(), "pop: 1");
    assert_eq!(msgs.last().unwrap(), "pop tail: 7");
}

#[test]
fn main_match_arrays_functional_sum() {
    let mut list: &[u8] = &[1, 2, 3, 3, 4, 6, 6];

    let mut total = 0;
    loop {
        match list {
            [first, middle @ .., last] => {
                total += first + last;
                println!("first + last = {}", first + last);
                list = middle;
            }
            [first] => {
                total += first;
                println!("first = {}", first);
                break;
            }
            _ => {
                break;
            }
        }
    }
    println!("Total {total}");

    assert_eq!(total as u64, sum_first_last(&[1, 2, 3, 3, 4, 6, 6]));
}

#[test]
fn main_match_enum_simple() {
    println!("{}", stringfy_state(State::Open));
    println!("{}", stringfy_state(State::Closing));
    println!("{}", stringfy_state(State::Closed));
    println!("{}", stringfy_state(State::Opening));
}

#[test]
fn main_match_enum_complex() {
    let color = Color::Black;
    println!("{}", stringfy_color(color));
    let color = Color::White;
    println!("{}", stringfy_color(color));
    let color = Color::RGB(0, 0, 0);
    println!("{}", stringfy_color(color));
    let color = Color::RGB(255, 255, 255);
    println!("{}", stringfy_color(color));
    let color = Color::RGB(25, 1, 255);
    println!("{}", stringfy_color(color));
    let color = Color::RGB(254, 0, 255);
    println!("{}", stringfy_color(color));
    let color = Color::RGB(255, 0, 255);
    println!("{}", stringfy_color(color));
    let color = Color::RGB(10, 10, 0);
    println!("{}", stringfy_color(color));
    let color = Color::ARGB(0xFF, 10, 10, 0);
    println!("{}", stringfy_color(color));
    let color = Color::CMYK(0, 0, 0, 0);
    println!("{}", stringfy_color(color));
    let color = Color::CMYK(0, 0, 0, 100);
    println!("{}", stringfy_color(color));
    let color = Color::CMYK(1, 2, 3, 4);
    println!("{}", stringfy_color(color));
}

#[derive(Debug)]
struct Point {
    x: i32,
    y: i32,
}

impl Point {
    fn new(x: i32, y: i32) -> Self {
        Self { x, y }
    }
    fn origin() -> Self {
        Point { x: 0, y: 0 }
    }
    fn x(&self) -> i32 {
        self.x
    }
    fn y(&self) -> i32 {
        self.y
    }
    fn set_x(&mut self, x: i32) {
        self.x = x;
    }
    fn set_y(&mut self, y: i32) {
        self.y = y;
    }
}

impl Default for Point {
    fn default() -> Self {
        Point { x: 0, y: 0 }
    }
}

#[derive(Debug, Default)]
struct Rectangle {
    top_left: Point,
    bottom_right: Point,
}

impl Rectangle {
    fn area(&self) -> i32 {
        (self.bottom_right.x() - self.top_left.x()) * (self.bottom_right.y() - self.top_left.y())
    }
}

#[derive(Debug)]
struct Person {
    first_name: String,
    last_name: String,
    cpf: String,
    age: u8,
}

#[test]
fn structs_101() {
    let jhon = Person {
        first_name: "Jhon".to_string(),
        last_name: "Foo".to_string(),
        cpf: "040.305.033-90".to_string(),
        age: 30,
    };
    println!("{:?}", &jhon);

    println!(
        "\nName: {} {}\nCPF: {}\nAge: {}\n",
        jhon.first_name, jhon.last_name, jhon.cpf, jhon.age
    );
    let p = &jhon;
    println!("\nName: {:?}", p);
    println!(
        "\nName: {} {}\nCPF: {}\nAge: {}\n",
        &p.first_name, p.last_name, p.cpf, p.age
    );
}

#[derive(Debug)]
struct MyConsts;

impl MyConsts {
    pub fn pi() -> f64 {
        std::f64::consts::PI
    }
    pub fn e() -> f64 {
        std::f64::consts::E
    }
}

#[test]
fn structs_unit() {
    println!("{:?}", MyConsts);
    println!("π = {}", MyConsts::pi());
    println!("e = {}", MyConsts::e());
}

#[derive(Debug)]
struct PairI32(i32, f32);

#[test]
fn structs_tuple() {
    let p = PairI32(10, 20.0);
    println!("{:?}", &p);
    println!("result = {}", p.0 + p.1 as i32)
}

#[test]
fn structs_composition() {
    let rec = Rectangle {
        top_left: Point::origin(),
        bottom_right: Point::new(10, 10),
    };

    println!("{:?}", &rec);
    println!("Area rec = {}m²", rec.area());

    let top_left = Point::new(100, 50);

    let rec2 = Rectangle {
        top_left,
        bottom_right: Point::new(101, 100),
    };
    println!("{:?}", &rec2);
    println!("Area rec2 = {}m²", rec2.area());

    let rec3 = Rectangle {
        bottom_right: Point::new(1000, 1000),
        ..rec2
    };

    println!("{:?}", &rec3);
    println!("Area rec3 = {}m²", rec3.area());

    let rec4 = Rectangle {
        bottom_right: Point::new(100, 200),
        ..Default::default()
    };

    println!("{:?}", &rec4);
    println!("Area rec4 = {}m²", rec4.area());

    let mut rec5: Rectangle = Default::default();
    println!("{:?}", &rec5);
    rec5.top_left = Point::new(0, 30);
    rec5.bottom_right.set_x(10);
    rec5.bottom_right.set_y(50);

    println!("{:?}", &rec5);
    println!("Area rec5 = {}m²", rec5.area());

    let Rectangle { top_left, .. } = rec5;
    println!("{:?}", top_left);
}
