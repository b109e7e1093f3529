use dfu_nusb::memory_layout::{calculate_pages, parse_region_with};
use dfu_nusb::{Error, MemoryLayout};

#[test]
fn test_memory_address() {
    // 0: 0x0801_0000 to 0801_3FFF 16K
    // 1: 0x0801_4000 to 0801_7FFF 16K
    // 2: 0x0801_8000 to 0802_7FFF 64K
    let m = MemoryLayout::from_str("/0x08010000/02*16K,01*64K").unwrap();
    assert_eq!(true, m.address(0x0800_0000).is_err());
    let p = m.address(0x0801_0100).unwrap();
    assert_eq!(0x0801_0000, p.address);
    assert_eq!(0x4000, p.size);
    let p = m.address(0x0801_4000).unwrap();
    assert_eq!(0x0801_4000, p.address);
    assert_eq!(0x4000, p.size);

    let p = m.address(0x0801_8001).unwrap();
    assert_eq!(0x0801_8000, p.address);
    assert_eq!(0x10000, p.size);
    assert_eq!(true, m.address(0x0802_7FFF).is_ok());

    assert_eq!(true, m.address(0x0802_8000).is_err());
}

#[test]
fn test_memory_num_pages() {
    let m = MemoryLayout::from_str("/0x08010000/02*16K,01*64K").unwrap();
    assert_eq!(true, m.num_pages(0x0800_0000, 0xFFFF).is_err());
    let n = m.num_pages(0x0801_0000, 0xFFFF).unwrap();
    assert_eq!(3, n);

    let n = m.num_pages(0x0801_0000, 0x2000).unwrap();
    assert_eq!(1, n);

    let n = m.num_pages(0x0801_0000, 0x4000).unwrap();
    assert_eq!(1, n);

    let n = m.num_pages(0x0801_0000, 0x4001).unwrap();
    assert_eq!(2, n);

    let n = m.num_pages(0x0801_4000, 0x2000).unwrap();
    assert_eq!(1, n);

    let n = m.num_pages(0x0801_4000, 0x8000).unwrap();
    assert_eq!(2, n);
}

#[test]
fn test_memory_from() {
    assert_eq!(true, MemoryLayout::from_str("/").is_err());
    let m = MemoryLayout::from_str("/0x08008000");
    assert_eq!(true, m.is_err());

    let m = MemoryLayout::from_str("/0x08001000/02*16K");
    assert_eq!(true, m.is_ok());
    let m = m.unwrap();
    let p = m.pages();
    assert_eq!(2, p.len());
    assert_eq!(16384, p.iter().nth(0).unwrap().size);
    assert_eq!(16384, p.iter().nth(1).unwrap().size);

    let m = MemoryLayout::from_str("/0x08010000/02*16K,01*64K");
    assert_eq!(true, m.is_ok());
    let m = m.unwrap();
    let p = m.pages();
    assert_eq!(3, p.len());
    assert_eq!(16384, p.iter().nth(0).unwrap().size);
    assert_eq!(16384, p.iter().nth(1).unwrap().size);
    assert_eq!(65536, p.iter().nth(2).unwrap().size);
}

#[test]
fn layout_page_addresses() {
    let m = MemoryLayout::from_str("/0x08001000/02*16K").unwrap();
    let p = m.pages();
    assert_eq!((0x0800_1000, 16384), (p[0].address, p[0].size));
    assert_eq!((0x0800_5000, 16384), (p[1].address, p[1].size));

    let m = MemoryLayout::from_str("/0x08010000/02*16K,01*64K").unwrap();
    let p = m.pages();
    assert_eq!((0x0801_0000, 16384), (p[0].address, p[0].size));
    assert_eq!((0x0801_4000, 16384), (p[1].address, p[1].size));
    assert_eq!((0x0801_8000, 65536), (p[2].address, p[2].size));
}

#[test]
fn layout_with_label_and_unit_suffix() {
    let m = MemoryLayout::from_str("@Internal Flash  /0x08000000/04*016Kg,01*064Kg,07*128Kg").unwrap();
    let p = m.pages();
    assert_eq!(12, p.len());
    assert_eq!((0x0800_0000, 16 * 1024), (p[0].address, p[0].size));
    assert_eq!((0x0801_0000, 64 * 1024), (p[4].address, p[4].size));
    assert_eq!((0x0802_0000, 128 * 1024), (p[5].address, p[5].size));
    let m = MemoryLayout::from_str("/0x00000000/01*1M").unwrap();
    assert_eq!(1048576, m.pages()[0].size);
}

#[test]
fn layout_errors() {
    assert!(matches!(MemoryLayout::from_str("/0x08000000/02*16X"), Err(Error::MemoryLayout(_))));
    assert!(matches!(MemoryLayout::from_str("/0x08000000/02*16"), Err(Error::MemoryLayout(_))));
    assert!(matches!(MemoryLayout::from_str("/0x08000000/02"), Err(Error::MemoryLayout(_))));
    assert!(matches!(MemoryLayout::from_str("/0xZZ/02*16K"), Err(Error::MemoryLayout(_))));
    assert!(matches!(MemoryLayout::from_str("/0xFFFFF000/02*16K"), Err(Error::MemoryLayout(_))));
    assert!(matches!(MemoryLayout::from_str(""), Err(Error::MemoryLayout(_))));
}

#[test]
fn layout_address_errors_name_the_address() {
    let m = MemoryLayout::from_str("/0x08010000/02*16K,01*64K").unwrap();
    assert!(matches!(m.address(0x0802_8000), Err(Error::Address(0x0802_8000))));
    assert!(matches!(m.num_pages(0x0802_0000, 0x10001), Err(Error::Address(0x0803_0000))));
    assert!(matches!(m.num_pages(0x0800_0000, 0x10), Err(Error::Address(0x0800_0000))));
    assert_eq!(1, m.num_pages(0x0802_0000, 0x10000).unwrap());
    assert_eq!(0, m.num_pages(0x0900_0000, 0).unwrap());
}

#[test]
fn test_calculate_pages() {
    assert_eq!(true, calculate_pages(0x0801_0000, 3).map(|pages| { assert_eq!(1, pages) }).is_ok());
    assert_eq!(
        true,
        calculate_pages(0x0801_0000, 0x10000).map(|pages| { assert_eq!(1, pages) }).is_ok()
    );
    assert_eq!(
        true,
        calculate_pages(0x0801_0000, 0x10001).map(|pages| { assert_eq!(2, pages) }).is_ok()
    );
    assert_eq!(
        true,
        calculate_pages(0x0801_0000, 0x20000).map(|pages| { assert_eq!(2, pages) }).is_ok()
    );
}

#[test]
fn calculate_pages_errors() {
    assert!(matches!(calculate_pages(0x0801_0000, 0), Err(Error::Argument(_))));
    assert!(matches!(calculate_pages(0x0800_0000, 1), Err(Error::Address(0x0800_0000))));
}

fn region(text: &str) -> Result<(u32, u32), Error> {
    let p: Vec<char> = text.chars().collect();
    let alpha: Vec<bool> = p.iter().map(|c| c.is_alphabetic()).collect();
    let num: Vec<bool> = p.iter().map(|c| c.is_numeric()).collect();
    parse_region_with(&p, &alpha, &num)
}

#[test]
fn region_count_and_size() {
    assert_eq!((2, 16 * 1024), region("02*16K").unwrap());
    assert_eq!((7, 128 * 1024), region("07*128Kg").unwrap());
    assert_eq!((1, 2 * 1048576), region("1*2M").unwrap());
    assert!(matches!(region("02*16"), Err(Error::MemoryLayout(_))));
    assert!(matches!(region("02*16Q"), Err(Error::MemoryLayout(_))));
    assert!(matches!(region("x*16K"), Err(Error::MemoryLayout(_))));
    assert!(matches!(region("2*4194304K"), Err(Error::MemoryLayout(_))));
}

#[test]
fn region_marks_decide_the_trim() {
    let p: Vec<char> = "3*8K".chars().collect();
    let none = vec![false; 4];
    let mut num = vec![false; 4];
    num[2] = true;
    assert!(matches!(parse_region_with(&p, &none, &num), Err(Error::MemoryLayout(_))));
    let mut alpha = vec![false; 4];
    alpha[3] = true;
    assert_eq!((3, 8 * 1024), parse_region_with(&p, &alpha, &num).unwrap());
}

#[test]
fn calculate_pages_refuses_counts_above_16_bits() {
    assert_eq!(0xFFFF, calculate_pages(0x0801_0000, 0xFFFF_0000).unwrap());
    assert!(matches!(calculate_pages(0x0801_0000, 0xFFFF_0001), Err(Error::Argument(_))));
}
