use trap_kernel::console::print;
use trap_kernel::memory::address::PhysicalAddress;
use trap_kernel::memory::config::KERNEL_HEAP_SIZE;
use trap_kernel::sbi::{
    console_getchar, console_putchar, set_timer, shutdown, SbiCall, SBI_CONSOLE_PUTCHAR,
};

#[test]
fn sbi_requests() {
    assert_eq!(console_putchar(65), SbiCall { which: 1, arg0: 65, arg1: 0, arg2: 0 });
    assert_eq!(console_getchar(), SbiCall { which: 2, arg0: 0, arg1: 0, arg2: 0 });
    assert_eq!(shutdown(), SbiCall { which: 8, arg0: 0, arg1: 0, arg2: 0 });
    assert_eq!(set_timer(12345), SbiCall { which: 0, arg0: 12345, arg1: 0, arg2: 0 });
}

#[test]
fn print_sends_each_utf8_byte() {
    let calls = print("OK\n");
    let bytes: Vec<usize> = calls.iter().map(|c| c.arg0).collect();
    assert_eq!(bytes, vec![b'O' as usize, b'K' as usize, b'\n' as usize]);
    assert!(calls.iter().all(|c| c.which == SBI_CONSOLE_PUTCHAR));
    let wide = print("你");
    assert_eq!(wide.len(), 3);
    assert_eq!(wide[0].arg0, 0xe4);
    assert_eq!(wide[1].arg0, 0xbd);
    assert_eq!(wide[2].arg0, 0xa0);
    assert!(print("").is_empty());
}

#[test]
fn physical_address_value() {
    let a = PhysicalAddress(0x8000_0000);
    assert_eq!(a.as_usize(), 0x8000_0000);
    assert!(PhysicalAddress(1) < PhysicalAddress(2));
    assert_eq!(KERNEL_HEAP_SIZE, 8 * 1024 * 1024);
}
