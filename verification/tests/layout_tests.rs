use core::ops::Deref;
use core::mem::ManuallyDrop;
use std::rc::Rc;
use std::sync::Arc;
use layout_trait::{record_target, target_layout, value_layout, GetLayout, GetLayoutType, Layout};

// emulate the svd2rust peripheral proxy

#[derive(Debug)]
struct RegisterBlock {
    _reg1: u32,
    _reg2: u32,
}

const REGISTERS: RegisterBlock = RegisterBlock { _reg1: 0, _reg2: 0 };

struct Proxy {}

impl Deref for Proxy {
    type Target = RegisterBlock;
    fn deref(&self) -> &Self::Target {
        &REGISTERS
    }
}

impl GetLayout for Proxy {
    fn get_layout(&self, layout: &mut Vec<Layout>) {
        record_target(self, layout);
    }
}

impl GetLayoutType for Proxy {
    fn get_layout_type(layout: &mut Vec<Layout>) {
        record_target(&Proxy {}, layout);
    }
}

fn register_address() -> usize {
    core::ptr::from_ref(Proxy {}.deref()).addr()
}

#[test]
fn test_u32() {
    let data: u32 = 32;
    let mut layout: Vec<Layout> = Vec::new();
    data.get_layout(&mut layout);
    println!("{:#x?}", layout);

    assert!(layout[0].size == 4)
}

#[test]
fn test_array_u32() {
    let data: [u32; 16] = [32; 16];

    let mut layout: Vec<Layout> = Vec::new();
    data.get_layout(&mut layout);
    println!("{:#x?}", layout);

    assert!(layout[0].size == 64)
}

struct Simple {
    data: u32,
    data2: u64,
}

// this implementation should be generated by a custom derive
impl GetLayout for Simple {
    fn get_layout(&self, layout: &mut Vec<Layout>) {
        self.data.get_layout(layout);
        self.data2.get_layout(layout);
    }
}

#[test]
fn test_simple() {
    let data = Simple { data: 0, data2: 0 };
    let mut layout: Vec<Layout> = Vec::new();
    data.get_layout(&mut layout);
    println!("{:#x?}", layout);

    assert!(layout[0].size == 4);
    assert!(layout[1].size == 8);
}

#[allow(dead_code)]
enum Enum {
    A,
    B(u32),
    C(Proxy),
}

// the value itself is one region, as for any type without a layout of its own
impl GetLayout for Enum {
    fn get_layout(&self, layout: &mut Vec<Layout>) {
        layout.push(value_layout(self));
    }
}

// this implementation should be generated by a custom derive
impl GetLayoutType for Enum {
    fn get_layout_type(layout: &mut Vec<Layout>) {
        u32::get_layout_type(layout);
        Proxy::get_layout_type(layout);
    }
}

#[test]
fn test_enum() {
    // The A variant
    let mut data = Enum::A;

    let mut layout: Vec<Layout> = Vec::new();
    data.get_layout(&mut layout);
    println!("{:#x?}", layout);

    data = Enum::B(1);
    let mut layout: Vec<Layout> = Vec::new();
    data.get_layout(&mut layout);
    println!("{:#x?}", layout);

    // the B variant location
    if let Enum::B(ref x) = data {
        println!("Enum::B {} {}", x, core::ptr::from_ref(x).addr());
    }

    data = Enum::C(Proxy {});
    let mut layout: Vec<Layout> = Vec::new();
    data.get_layout(&mut layout);
    println!("{:#x?}", layout);

    if let Enum::C(ref c) = data {
        println!("Enum::C {}", core::ptr::from_ref(c).addr());
    }
}

struct Complex {
    simple: Simple,
    data2: Proxy,
}

// this implementation should be generated by a custom derive
impl GetLayout for Complex {
    fn get_layout(&self, layout: &mut Vec<Layout>) {
        self.simple.get_layout(layout);
        self.data2.get_layout(layout);
    }
}

// The original form of this test goes on to wrap `data` in `MaybeUninit` and then in
// `UnsafeCell<MaybeUninit<_>>` and asks for the same three regions again; reaching the
// wrapped value needs `unsafe` code, so those two forms have no layout here (README.md).
#[test]
fn test_complex() {
    let data = Complex {
        simple: Simple { data: 0, data2: 0 },
        data2: Proxy {},
    };

    let mut layout: Vec<Layout> = Vec::new();
    data.get_layout(&mut layout);
    println!("{:#x?}", layout);

    assert!(layout[0].size == 4);
    assert!(layout[1].size == 8);
    assert!(layout[2].size == 8); // Proxy size
    assert!(layout[2].address == register_address()); // Proxy address
}

#[test]
fn wrappers_report_their_own_region() {
    let pair: (u8, u32) = (1, 2);
    let maybe: Option<u16> = Some(3);
    let four: (u8, u8, u16, u32) = (1, 2, 3, 4);
    let result: Result<u32, u32> = Ok(5);
    let list: Vec<u8> = vec![1, 2, 3];
    let text: String = String::from("abc");
    let mut layout: Vec<Layout> = Vec::new();
    pair.get_layout(&mut layout);
    maybe.get_layout(&mut layout);
    four.get_layout(&mut layout);
    result.get_layout(&mut layout);
    list.get_layout(&mut layout);
    text.get_layout(&mut layout);
    assert_eq!(layout.len(), 6);
    assert_eq!(layout[0], Layout { address: core::ptr::from_ref(&pair).addr(), size: 8 });
    assert_eq!(layout[1], Layout { address: core::ptr::from_ref(&maybe).addr(), size: 4 });
    assert_eq!(layout[2], Layout { address: core::ptr::from_ref(&four).addr(), size: 8 });
    assert_eq!(layout[3], Layout { address: core::ptr::from_ref(&result).addr(), size: 8 });
    assert_eq!(layout[4].address, core::ptr::from_ref(&list).addr());
    assert_eq!(layout[4].size, core::mem::size_of::<Vec<u8>>());
    assert_eq!(layout[5].address, core::ptr::from_ref(&text).addr());
    assert_eq!(layout[5].size, core::mem::size_of::<String>());
}

#[test]
fn pointers_report_their_target() {
    let mut value: u32 = 7;
    let shared: Rc<u64> = Rc::new(1);
    let atomic: Arc<u16> = Arc::new(2);
    let kept: ManuallyDrop<u8> = ManuallyDrop::new(3);
    let mut layout: Vec<Layout> = Vec::new();
    shared.get_layout(&mut layout);
    atomic.get_layout(&mut layout);
    kept.get_layout(&mut layout);
    let address = core::ptr::from_ref(&value).addr();
    let unique = &mut value;
    unique.get_layout(&mut layout);
    assert_eq!(layout[0], Layout { address: core::ptr::from_ref(&*shared).addr(), size: 8 });
    assert_eq!(layout[1], Layout { address: core::ptr::from_ref(&*atomic).addr(), size: 2 });
    assert_eq!(layout[2], Layout { address: core::ptr::from_ref(&*kept).addr(), size: 1 });
    assert_eq!(layout[3], Layout { address, size: 4 });
}

#[test]
fn proxy_type_and_value_reports_agree() {
    let mut by_type: Vec<Layout> = Vec::new();
    Proxy::get_layout_type(&mut by_type);
    let mut by_value: Vec<Layout> = Vec::new();
    Proxy {}.get_layout(&mut by_value);
    assert_eq!(by_type, by_value);
}

#[test]
fn addresses_are_aligned() {
    let wide: u64 = 1;
    let mut layout: Vec<Layout> = Vec::new();
    wide.get_layout(&mut layout);
    assert_ne!(layout[0].address, 0);
    assert_eq!(layout[0].address % core::mem::align_of::<u64>(), 0);
}

#[test]
fn proxy_reports_its_target() {
    let mut layout: Vec<Layout> = Vec::new();
    Proxy {}.get_layout(&mut layout);
    assert_eq!(layout.len(), 1);
    assert_eq!(layout[0].size, 8);
    assert_eq!(layout[0].address, register_address());
}

#[test]
fn complex_is_its_fields_in_order() {
    let data = Complex { simple: Simple { data: 0, data2: 0 }, data2: Proxy {} };
    let mut layout: Vec<Layout> = Vec::new();
    data.get_layout(&mut layout);
    assert_eq!(layout.len(), 3);
    assert_eq!(layout[0], Layout { address: core::ptr::from_ref(&data.simple.data).addr(), size: 4 });
    assert_eq!(layout[1], Layout { address: core::ptr::from_ref(&data.simple.data2).addr(), size: 8 });
    assert_eq!(layout[2], Layout { address: register_address(), size: 8 });
}

#[test]
fn earlier_entries_stay() {
    let first = Layout { address: 0x2000, size: 16 };
    let mut layout: Vec<Layout> = vec![first];
    let x: u16 = 3;
    x.get_layout(&mut layout);
    assert_eq!(layout.len(), 2);
    assert_eq!(layout[0], first);
    assert_eq!(layout[1], Layout { address: core::ptr::from_ref(&x).addr(), size: 2 });
}

#[test]
fn plain_types_have_no_type_level_regions() {
    let mut layout: Vec<Layout> = vec![Layout { address: 8, size: 1 }];
    u32::get_layout_type(&mut layout);
    bool::get_layout_type(&mut layout);
    <[u8; 4]>::get_layout_type(&mut layout);
    assert_eq!(layout, vec![Layout { address: 8, size: 1 }]);
}

#[test]
fn enum_type_layout_lists_its_proxies() {
    let mut layout: Vec<Layout> = Vec::new();
    Enum::get_layout_type(&mut layout);
    assert_eq!(layout, vec![Layout { address: register_address(), size: 8 }]);
}

#[test]
fn reference_and_box_report_their_target() {
    let value: u64 = 5;
    let reference = &value;
    let boxed: Box<u32> = Box::new(9);
    let mut layout: Vec<Layout> = Vec::new();
    reference.get_layout(&mut layout);
    boxed.get_layout(&mut layout);
    assert_eq!(layout[0], Layout { address: core::ptr::from_ref(&value).addr(), size: 8 });
    assert_eq!(layout[1], Layout { address: core::ptr::from_ref(&*boxed).addr(), size: 4 });
}

#[test]
fn value_layout_is_where_the_value_lies() {
    let value: [u8; 3] = [1, 2, 3];
    let region = value_layout(&value);
    assert_eq!(region.address, core::ptr::from_ref(&value[0]).addr());
    assert_eq!(region.size, 3);
    let wide: i128 = -1;
    let region = value_layout(&wide);
    assert_eq!(region.size, 16);
    assert_ne!(region.address, 0);
}

#[test]
fn target_layout_is_the_target_not_the_proxy() {
    let region = target_layout(&Proxy {});
    assert_eq!(region, Layout { address: register_address(), size: 8 });
    let own = value_layout(&Proxy {});
    assert_eq!(own.size, 0);
}

#[test]
fn repeated_reports_agree() {
    let data = Simple { data: 1, data2: 2 };
    let mut first: Vec<Layout> = Vec::new();
    data.get_layout(&mut first);
    let mut second: Vec<Layout> = Vec::new();
    data.get_layout(&mut second);
    assert_eq!(first, second);

    let mut twice: Vec<Layout> = Vec::new();
    Proxy::get_layout_type(&mut twice);
    Proxy::get_layout_type(&mut twice);
    assert_eq!(twice.len(), 2);
    assert_eq!(twice[0], twice[1]);
}
