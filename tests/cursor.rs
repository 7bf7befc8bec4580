use parser_helper::{Eoi, Error, ParserHelper};

#[derive(Debug, PartialEq, Eq, Clone, Copy, PartialOrd, Ord, Hash)]
enum MyErr {
    A,
    B,
    Overrun,
    Digit,
    End,
}

impl Eoi for MyErr {
    fn eoi() -> Self {
        MyErr::End
    }
}

fn is_digit(b: u8) -> bool {
    b.is_ascii_digit()
}

fn is_space(b: u8) -> bool {
    b == b' '
}

#[test]
fn expect_consumes_on_mismatch_and_peek_does_not_advance() {
    let mut h = ParserHelper::new(b"ab12");
    assert_eq!(h.expect(b'a', MyErr::A), Ok(()));
    assert_eq!(h.position(), 1);
    assert_eq!(h.expect(b'x', MyErr::B), Err(Error { position: 1, e: MyErr::B }));
    assert_eq!(h.position(), 2);
    assert_eq!(h.peek_or_end(), Some(b'1'));
    assert_eq!(h.position(), 2);
}

#[test]
fn next_on_empty_is_end_of_input() {
    let mut h = ParserHelper::new(b"");
    assert_eq!(h.next::<MyErr>(), Err(Error { position: 0, e: MyErr::eoi() }));
    assert_eq!(h.position(), 0);
}

#[test]
fn advance_or_overrun_keeps_moved_position() {
    let mut h = ParserHelper::new(b"abc");
    assert_eq!(h.advance_or(5, MyErr::Overrun), Err(Error { position: 0, e: MyErr::Overrun }));
    assert_eq!(h.position(), 5);
}

#[test]
fn advance_or_within_bounds() {
    let mut h = ParserHelper::new(b"abc");
    assert_eq!(h.advance_or(3, MyErr::Overrun), Ok(()));
    assert_eq!(h.position(), 3);
    assert_eq!(h.advance_or(1, MyErr::Overrun), Err(Error { position: 3, e: MyErr::Overrun }));
    assert_eq!(h.position(), 4);
}

#[test]
fn position_adds_up_over_operations() {
    let mut h = ParserHelper::new(b"let x = 42;");
    assert!(h.advance_over(b"let"));
    assert_eq!(h.next_or_end(), Some(b' '));
    assert_eq!(h.next::<MyErr>(), Ok(b'x'));
    h.skip(is_space);
    assert_eq!(h.expect(b'=', MyErr::A), Ok(()));
    h.advance(1);
    assert_eq!(h.expect_pred(is_digit, MyErr::Digit), Ok(()));
    assert_eq!(h.expect_bytes(b"2;", MyErr::B), Ok(()));
    assert_eq!(h.position(), 3 + 1 + 1 + 1 + 1 + 1 + 1 + 2);
    assert_eq!(h.position(), h.len());
}

#[test]
fn advance_over_is_all_or_nothing() {
    let mut h = ParserHelper::new(b"hello");
    assert!(!h.advance_over(b"help"));
    assert_eq!(h.position(), 0);
    assert!(!h.advance_over(b"hello!"));
    assert_eq!(h.position(), 0);
    assert!(h.advance_over(b"hel"));
    assert_eq!(h.position(), 3);
    assert!(h.advance_over(b""));
    assert_eq!(h.position(), 3);
    assert!(h.advance_over(b"lo"));
    assert_eq!(h.position(), 5);
    assert!(!h.advance_over(b"x"));
    assert_eq!(h.position(), 5);
}

#[test]
fn end_is_signalled_exactly_at_the_end() {
    let mut h = ParserHelper::new(b"z");
    assert_eq!(h.peek_or_end(), Some(b'z'));
    assert_eq!(h.peek::<MyErr>(), Ok(b'z'));
    assert_eq!(h.next_or_end(), Some(b'z'));
    assert_eq!(h.position(), 1);
    assert_eq!(h.peek_or_end(), None);
    assert_eq!(h.next_or_end(), None);
    assert_eq!(h.peek::<MyErr>(), Err(Error { position: 1, e: MyErr::End }));
    assert_eq!(h.next::<MyErr>(), Err(Error { position: 1, e: MyErr::End }));
    assert_eq!(h.position(), 1);
}

#[test]
fn past_the_end_reads_nothing() {
    let mut h = ParserHelper::new(b"ab");
    h.advance(4);
    assert_eq!(h.position(), 4);
    assert_eq!(h.peek_or_end(), None);
    assert_eq!(h.next_or_end(), None);
    assert_eq!(h.next::<MyErr>(), Err(Error { position: 4, e: MyErr::End }));
    h.skip(is_digit);
    assert_eq!(h.position(), 4);
}

#[test]
fn expect_at_end_is_end_of_input() {
    let mut h = ParserHelper::new(b"q");
    assert_eq!(h.expect(b'q', MyErr::A), Ok(()));
    assert_eq!(h.expect(b'q', MyErr::A), Err(Error { position: 1, e: MyErr::End }));
    assert_eq!(h.expect_pred(is_digit, MyErr::Digit), Err(Error { position: 1, e: MyErr::End }));
    assert_eq!(h.position(), 1);
}

#[test]
fn expect_bytes_does_not_consume_on_mismatch() {
    let mut h = ParserHelper::new(b"true");
    assert_eq!(h.expect_bytes(b"tree", MyErr::B), Err(Error { position: 0, e: MyErr::B }));
    assert_eq!(h.position(), 0);
    assert_eq!(h.expect_bytes(b"tr", MyErr::B), Ok(()));
    assert_eq!(h.position(), 2);
    assert_eq!(h.expect_bytes(b"uex", MyErr::B), Err(Error { position: 2, e: MyErr::B }));
    assert_eq!(h.position(), 2);
}

#[test]
fn expect_pred_consumes_on_mismatch() {
    let mut h = ParserHelper::new(b"7a");
    assert_eq!(h.expect_pred(is_digit, MyErr::Digit), Ok(()));
    assert_eq!(h.position(), 1);
    assert_eq!(h.expect_pred(is_digit, MyErr::Digit), Err(Error { position: 1, e: MyErr::Digit }));
    assert_eq!(h.position(), 2);
}

#[test]
fn skip_stops_at_first_mismatch_and_is_idempotent() {
    let mut h = ParserHelper::new(b"123ab");
    h.skip(is_digit);
    assert_eq!(h.position(), 3);
    h.skip(is_digit);
    assert_eq!(h.position(), 3);
    assert_eq!(h.rest(), b"ab");
}

#[test]
fn skip_runs_to_the_end() {
    let mut h = ParserHelper::new(b"   ");
    h.skip(|b: u8| b == b' ');
    assert_eq!(h.position(), 3);
    h.skip(|b: u8| b == b' ');
    assert_eq!(h.position(), 3);
    assert_eq!(h.rest(), b"");
}

#[test]
fn slice_whole_range_is_the_buffer() {
    let input: &[u8] = b"abcdef";
    let mut h = ParserHelper::new(input);
    assert_eq!(h.slice(0..h.len()), input);
    h.advance(4);
    assert_eq!(h.slice(0..h.len()), input);
    assert_eq!(h.slice(1..3), b"bc");
    assert_eq!(*h.slice(5), b'f');
    assert_eq!(h.rest(), b"ef");
    assert_eq!(h.len(), 6);
}

#[test]
fn fail_tags_current_or_given_position() {
    let mut h = ParserHelper::new(b"abc");
    h.advance(2);
    assert_eq!(h.fail::<(), MyErr>(MyErr::A), Err(Error { position: 2, e: MyErr::A }));
    assert_eq!(h.fail_at_position::<u8, MyErr>(MyErr::B, 0), Err(Error { position: 0, e: MyErr::B }));
    assert_eq!(h.unexpected_end_of_input::<(), MyErr>(), Err(Error { position: 2, e: MyErr::End }));
    assert_eq!(h.position(), 2);
}

#[test]
fn error_new_and_ordering() {
    let a = Error::new(3, MyErr::A);
    assert_eq!(a, Error { position: 3, e: MyErr::A });
    assert!(Error::new(1, MyErr::B) < Error::new(2, MyErr::A));
    assert!(Error::new(2, MyErr::A) < Error::new(2, MyErr::B));
}
