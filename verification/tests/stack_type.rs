use vm6502::stack::Stack;

#[test]
fn new_stack_holds_zeroes() {
    let stack = Stack::new();
    assert_eq!(stack.data, vec![0u8; 0xFF]);
    assert_eq!(stack.peek(), 0);
}

#[test]
fn stack_is_last_in_first_out() {
    let mut stack = Stack::new();
    stack.push(0xDE);
    stack.push(0xAD);
    assert_eq!(stack.data.len(), 0x101);
    assert_eq!(stack.peek(), 0xAD);
    assert_eq!(stack.pop(), 0xAD);
    assert_eq!(stack.pop(), 0xDE);
    assert_eq!(stack.pop(), 0x00);
    assert_eq!(stack.data.len(), 0xFE);
}
