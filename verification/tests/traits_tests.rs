use aulas::dispatch::{do_something, do_something_dyn, do_something_dyn_box, Foo};
use aulas::fs::{Directory, FSEntry, File, SDCard as TreeCard};
use aulas::ring::{ProtoIterator, RingPointer};
use aulas::ring_items::{ProtoIterator as ItemsProtoIterator, RingPointer as ItemsRingPointer};
use aulas::storage::v1::{sd_card_routine, spi_flash_routine};
use aulas::storage::v2::{driver_test_routine, driver_test_routine_ret, Storage};
use aulas::storage::v3::{Logger, LoggerLevel};
use aulas::storage::{SDCard, SPIFlash};
use aulas::sublist::{sublist, Comparison};

#[test]
fn main_test_drivers() {
    let mut sd_card = SDCard::new("sd://");
    let mut flash = SPIFlash::new(5);

    assert!(sd_card_routine(&mut sd_card));
    assert!(spi_flash_routine(&mut flash));

    let mut sd_card = SDCard::new("sd://");
    let mut flash = SPIFlash::new(10);

    assert!(driver_test_routine(&mut sd_card));
    assert!(driver_test_routine(&mut flash));
}

#[test]
fn test_drivers_ret() {
    let sd_card = SDCard::new("sd://");
    let flash = SPIFlash::new(10);

    let (_driver, res) = driver_test_routine_ret(sd_card);
    assert!(res);
    let (_driver, res) = driver_test_routine_ret(flash);
    assert!(res);
}

#[test]
fn test_print_logger_info() {
    let logger_sd = Logger::new(LoggerLevel::Info, SDCard::new("sd://"));
    let logger_spi = Logger::new(LoggerLevel::Warning, SPIFlash::new(20));

    println!("Logger <lvl: {:?}>", logger_sd.level());
    println!(
        "Logger <lvl: {:?}, driver speed: {}>",
        logger_spi.level(),
        logger_spi.driver().speed()
    );
}

#[test]
fn main_ring_pointer_empty() {
    let coll = vec![];
    let mut ring_ptr = RingPointer::new(&coll);

    assert_eq!(ring_ptr.next(), None);

    let coll = Vec::<u32>::new();
    let mut ring_ptr = ItemsRingPointer::new(&coll);

    assert_eq!(ring_ptr.next(), None);
}

#[test]
fn main_ring_pointer_one_element() {
    let coll = vec![1];
    let mut ring_ptr = RingPointer::new(&coll);

    assert_eq!(ring_ptr.next(), Some(1));
    assert_eq!(ring_ptr.next(), Some(1));

    let coll = vec![1];
    let mut ring_ptr = ItemsRingPointer::new(&coll);

    assert_eq!(ring_ptr.next(), Some(&1));
    assert_eq!(ring_ptr.next(), Some(&1));
}

#[test]
fn main_ring_pointer_two_elements() {
    let coll = vec![1, 2];
    let mut ring_pointer = RingPointer::new(&coll);

    assert_eq!(ring_pointer.next(), Some(1));
    assert_eq!(ring_pointer.next(), Some(2));
    assert_eq!(ring_pointer.next(), Some(1));

    let coll = vec![1, 2];
    let mut ring_pointer = ItemsRingPointer::new(&coll);

    assert_eq!(ring_pointer.next(), Some(&1));
    assert_eq!(ring_pointer.next(), Some(&2));
    assert_eq!(ring_pointer.next(), Some(&1));
}

#[test]
fn test_monomorphization() {
    let x = 7u8;
    let y = "Hello".to_string();

    do_something(x);
    do_something(y);
}

#[test]
fn test_dyn_cast() {
    let x = 7u8;
    do_something_dyn(&x as &dyn Foo);
}

#[test]
fn test_dyn_coercing() {
    let x = "Hello".to_string();
    do_something_dyn(&x);
}

#[test]
fn test_dyn_box() {
    let x = Box::new("Hello".to_string());
    do_something_dyn_box(x);
}

#[test]
fn test_sd_card_default() {
    let card1 = TreeCard::mount("sd://");
    let card2 = TreeCard::default();

    println!("Card1: {}", card1.root().name());
    println!("Card2: {}", card2.root().name());
}

#[test]
fn test_dir_to_entry() {
    let dir = Directory::new_empty("hello/");
    let _dir_entry = FSEntry::from(dir);
}

#[test]
fn test_file_to_entry() {
    let file = File::new("hello.txt");

    let _file_entry: FSEntry = file.into();
}

#[test]
fn test_entry_to_dir() {
    let dir_entry = FSEntry::new_dir("hello/");
    let file_entry = FSEntry::new_file("hello.txt");

    let right_dir = Directory::try_from(dir_entry);
    let wrong_dir = Directory::try_from(file_entry);

    println!("First conversion result was done? {}", right_dir.is_ok());
    println!("Second conversion result was done? {}", wrong_dir.is_ok());
}

#[test]
fn test_entry_to_file() {
    let dir_entry = FSEntry::new_dir("hello/");
    let file_entry = FSEntry::new_file("hello.txt");

    let right_file: Result<File, _> = File::try_from(file_entry);
    let wrong_file: Result<File, _> = File::try_from(dir_entry);

    println!("First conversion result was done? {}", right_file.is_ok());
    println!("Second conversion result was done? {}", wrong_file.is_ok());
}

#[test]
fn test_drop() {
    let mut card = TreeCard::default();
    for i in 0..3 {
        card.root_mut()
            .add_entry(File::new(&format!("empty{}.txt", i)).into());
        card.root_mut()
            .add_entry(Directory::new_empty(&format!("hello{}/", i)).into());
    }
}

#[test]
fn test_drop_with_scope() {
    {
        let mut card = TreeCard::default();
        for i in 0..3 {
            card.root_mut()
                .add_entry(File::new(&format!("empty{}.txt", i)).into());
            card.root_mut()
                .add_entry(Directory::new_empty(&format!("hello{}/", i)).into());
        }

        println!("Before end of scope");
    }
    println!("End of function");
}

#[test]
fn test_exercicio() {
    assert_eq!(sublist(&[1, 2, 3], &[1, 2, 3]), Comparison::Equal);
    assert_eq!(sublist(&[2, 3], &[1, 2, 3, 4]), Comparison::Sublist);
    assert_eq!(sublist(&[1, 2, 3, 4], &[2, 3]), Comparison::Superlist);
    assert_eq!(sublist(&[1, 2, 4], &[1, 2, 3, 4]), Comparison::Unequal);
    assert_eq!(sublist::<i32>(&[], &[]), Comparison::Equal);
    assert_eq!(sublist::<i32>(&[], &[1]), Comparison::Sublist);
}
