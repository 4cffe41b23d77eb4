use aulas::funcs::{
    bar, dont_move_argument, move_argument, mut_argument, mut_ref_argument, no_name_argument,
    receive_array, receive_func, ref_argument,
};

#[test]
fn lib_variable_imutable() {
    let a = 10;
    let a: i32 = 10;

    let a = "20";
    let _ = a;
}

#[test]
fn lib_variable_mutable() {
    let mut a = 20;

    a = 10;

    let a = 30;

    let mut a = 10;
    a = a;
}

#[test]
fn lib_integers() {
    let unsigned_byte: u8;
    let unsigned_short: u16;
    let unsigned_word: u32;
    let unsigned_dword: u64;
    let unsigned_qword: u128;
    let unsigned_arch_dependent_size: usize;

    let signed_byte: i8;
    let signed_short: i16;
    let signed_word: i32;
    let signed_dword: i64;
    let signed_qword: i128;
    let signed_arch_dependent_size: isize;
}

#[test]
fn lib_float_points() {
    let single_precision: f32;

    let double_precision: f64;
}

#[test]
fn lib_type_inference() {
    let a = 21;
    let b: u8 = 21;

    let a = 21u8;
    let d = 23_u8;

    let a = 10.5;

    let c = 2_000;
    let hex: u32 = 0xff_ff_ff_ff;
    let octal = 0o237;
    let binary = 0b11u32;
}

#[test]
fn lib_chars() {
    let unicode_one_byte = '$';
    let unicode_two_bytes = '£';
    let unicode_three_bytes = '€';
    let unicode_four_bytes = '😊';
}

#[test]
fn lib_strings() {
    let literal_str: &str = "Hello, World!";

    let str_one_byte = "$";
    let str_two_byte = "£";
    let str_three_byte = "€";
    let str_four_byte = "😊";

    "hello".len();

    println!("bytes: {}, len: {}", str_one_byte.len(), str_one_byte.chars().count());
    println!("bytes: {}, len: {}", str_two_byte.len(), str_two_byte.chars().count());
    println!("bytes: {}, len: {}", str_three_byte.len(), str_three_byte.chars().count());
    println!("bytes: {}, len: {}", str_four_byte.len(), str_four_byte.chars().count());
}

#[test]
fn scalar_types_strings() {
    let literal_str: &str = "Hello, World!";

    let str_one_byte = "$";
    let str_two_byte = "£";
    let str_three_byte = "€";

    println!(
        "[{}] bytes: {}, letters: {}",
        str_one_byte,
        str_one_byte.len(),
        str_one_byte.chars().count()
    );
    println!(
        "[{}] bytes: {}, letters: {}",
        str_two_byte,
        str_two_byte.len(),
        str_two_byte.chars().count()
    );
    println!(
        "[{}] bytes: {}, letters: {}",
        str_three_byte,
        str_three_byte.len(),
        str_three_byte.chars().count()
    );
}

#[test]
fn lib_byte_strings() {
    let literal_byte_str = b"Hello,\x20World!";
}

#[test]
fn lib_booleans() {
    let true_var = true;
    let false_var = false;
}

#[test]
fn lib_unit_type() {
    let unit = ();
    let unit: () = ();
}

#[test]
fn lib_casts_integers() {
    let a: u8 = 10i32 as u8;

    let a: u16 = (1u8 as u16) + 1u16;

    a.ilog2();

    let a: u32 = 10i32 as u32;
}

#[test]
fn lib_cast_between_float_and_int() {
    let a: u8 = 10.5_f32.round() as u8;

    let a: f32 = 10u8 as f32;
}

#[test]
fn lib_cast_bool_to_int() {
    let a = true as u8;
}

#[test]
fn lib_cast_int_to_bool() {
    let a = 1u8;

    let a = a != 0;
}

#[test]
fn lib_cast_char_to_int() {
    let a = 'A' as u8;
    let a = '€' as u8;
    let a = '€' as u16;
}

#[test]
fn lib_cast_int_to_char() {
    let a = 65u8 as char;
}

#[test]
fn lib_array_type() {
    let array_type: [u8; 5];
    let matrix: [[u8; 5]; 5];
}

#[test]
fn lib_init_array_with_values() {
    let array_init_with_values = [1, 2i16, 3, 4, 5];

    println!("10: {:?}", array_init_with_values);
}

#[test]
fn lib_init_array_with_same_value() {
    let array_init_with_same_value = [2u8; 5];
    let array = [false; 1000];

    println!("{:?}", array_init_with_same_value);
}

#[test]
fn lib_passing_array_to_func() {
    receive_array([3; 5]);
}

#[test]
fn lib_tuples_same_type() {
    let tuple_same_type: (u8, u8);
    let tuple_same_type = (2u8, 1u8);
}

#[test]
fn lib_tuples_mult_type() {
    let tuple_mult_types: (i32, f32, char, bool);
    let tuple_mult_types = (0i32, 1.0_f32, 'a', false);
}

#[test]
fn lib_tuple_one_position() {
    let number = (1);
    let tuple_one_position = (1,);
}

#[test]
fn lib_invalid_tuple_assing() {
    let mut tuple1 = ("1", 3);
    let tuple2 = (2, 5);
}

#[test]
fn lib_tuple_access() {
    let mut tuple = (0i32, 1.0_f32, 'a', false);

    tuple.0 = 1;

    println!("{}", tuple.0);
}

#[test]
fn lib_array_advantages() {
    let a = [0u32; 1000];
    let i = 3;

    println!("{}", a[i]);
}

#[test]
fn lib_tuple_advantages() {
    let a = (0i32, 0f32, false, 'b', [5u8; 100]);

    println!("{}", a.3);
}

#[test]
fn create_string() {
    let hello = "Hello, World!";
    println!("{}", hello);

    let hello = String::from("Hello, World!");
    println!("{}", hello);
    let world = hello + "!!!!";
    assert_eq!(world, "Hello, World!!!!!");

    println!("{world}");

    let hello = "Hello, World!".to_string();
    println!("{}", hello);
}

#[test]
fn lib_immutable_ref() {
    let a = 10;

    let b = &a;
    let c: &i32 = &a;
}

#[test]
fn lib_mutable_ref() {
    let mut a = 10;

    let b = &mut a;
    let c: &mut i32 = &mut a;

    let d = &a;
}

#[test]
fn lib_deref() {
    let a = 10;
    let b = &a;

    println!("a: {}", *b);
}

#[test]
fn lib_deref_mut() {
    let mut a = 10;
    let b = &mut a;

    *b = 20;

    println!("a: {}", a);
}

#[test]
fn lib_illegal_ref() {
    let a = 10;
}

#[test]
fn lib_illegal_deref() {
    let a = 10;
    let b = &a;

    println!("a: {}", a);
}

#[test]
fn lib_dangling_ref() {}

#[test]
fn lib_basic_slice() {
    let a = [1, 2, 3, 4, 5, 6];
    println!("a: {:?}", a);

    let s = &a[..];
    println!("{:?}", s);

    let s = &a[2..4];
    println!("{:?}", s);
}

#[test]
fn lib_string_slice() {
    let a = String::from("Hello");
    let a = "Hello".to_string();

    let b = &a;
    let c: &str = &a;
    println!("b: {}, c: {}", b, c);

    let d = "World";

    let f = &d[..];
    let g = &d[1..3];
    println!("f: {}, g: {}", f, g);
}

#[test]
fn lib_range() {
    for n in 0..10 {
        println!("{}", n);
    }

    let r = 0..10u8;
    for n in r {
        println!("{}", n);
    }
}

#[test]
fn lib_inclusive_range() {
    for n in 0..=10 {
        println!("{}", n);
    }
}

#[test]
fn lib_call_ref_arguments() {
    let a = 4;
    let mut b = 3;
    let mut c = 6;
    let d = &a;

    ref_argument(&a);
    mut_ref_argument(&mut b);
    ref_argument(&c);
    ref_argument(d);
}

#[test]
fn lib_call_move_argument() {
    let a = vec![0, 0, 0, 0, 0];
    let b = vec![1, 1, 1, 1, 1];

    move_argument(a);
    dont_move_argument(&b);
    println!("{:?}", b);
}

#[test]
fn call_mut_argument() {
    let v = vec![];

    mut_argument(v);
    no_name_argument(vec![]);

    let u = vec![];
    let mut w = u;

    w.push(1);
    println!("w {:?}", w);
}

#[test]
fn foo() {
    let mut a = 10;
    {
        let b = &mut a;

        let recv = receive_func(bar);
        println!("recv: {}", recv);

        println!("{}", b);
    }

    let c = &a;
    println!("{}", c);
}
