use sub_cursor::{calculate_available_bytes, InvalidSeek, MemoryStream, SeekFrom, Window};

fn counting_stream() -> MemoryStream {
    MemoryStream::new((0..255).map(|x| x as u8).collect())
}

fn window(start: usize, end: usize, preserve: bool) -> Window {
    Window { start, end, position: start as u64, preserve }
}

#[test]
fn available_bytes_is_the_smaller_of_buffer_and_rest() {
    assert_eq!(calculate_available_bytes(4, 100, 20), 4);
    assert_eq!(calculate_available_bytes(80, 100, 20), 80);
    assert_eq!(calculate_available_bytes(81, 100, 20), 80);
    assert_eq!(calculate_available_bytes(5, 100, 97), 3);
    assert_eq!(calculate_available_bytes(5, 100, 100), 0);
    assert_eq!(calculate_available_bytes(0, 100, 20), 0);
    assert_eq!(calculate_available_bytes(u64::MAX, u64::MAX, 0), u64::MAX);
}

#[test]
fn seek_from_start_reports_offset_modulo_length() {
    let mut w = window(20, 100, false);
    for offset in [0u64, 1, 79, 80, 81, 159, 160, 200, 12345, u64::MAX] {
        assert_eq!(w.seek(SeekFrom::Start(offset)), Ok(offset % 80));
        assert_eq!(w.position(), offset % 80);
        assert_eq!(w.position, 20 + offset % 80);
    }
}

#[test]
fn seek_to_the_end_itself_is_not_wrapped() {
    let mut w = window(20, 100, false);
    assert_eq!(w.seek(SeekFrom::End(0)), Ok(80));
    assert_eq!(w.position, 100);
    assert_eq!(w.seek(SeekFrom::Current(0)), Ok(80));
    assert_eq!(w.seek(SeekFrom::Start(80)), Ok(0));
    assert_eq!(w.seek(SeekFrom::Current(80)), Ok(80));
    assert_eq!(w.seek(SeekFrom::Current(1)), Ok(1));
}

#[test]
fn seek_before_the_start_is_refused_and_moves_nothing() {
    let mut w = window(20, 100, true);
    assert_eq!(w.seek(SeekFrom::Current(-1)), Err(InvalidSeek));
    assert_eq!(w, window(20, 100, true));
    assert_eq!(w.seek(SeekFrom::End(-81)), Err(InvalidSeek));
    assert_eq!(w.seek(SeekFrom::End(i64::MIN)), Err(InvalidSeek));
    assert_eq!(w.seek(SeekFrom::Current(i64::MIN)), Err(InvalidSeek));
    assert_eq!(w, window(20, 100, true));
    assert_eq!(w.seek(SeekFrom::Current(30)), Ok(30));
    assert_eq!(w.seek(SeekFrom::Current(-31)), Err(InvalidSeek));
    assert_eq!(w.position(), 30);
    assert_eq!(w.seek(SeekFrom::Current(-30)), Ok(0));
}

#[test]
fn invalid_seek_says_what_went_wrong() {
    assert_eq!(InvalidSeek.message(), "invalid seek to a negative offset");
}

#[test]
fn seek_by_nothing_from_the_cursor_changes_nothing() {
    let mut w = window(20, 100, false);
    for relative in [0u64, 1, 40, 79] {
        w.set_position(relative);
        let before = w;
        assert_eq!(w.seek(SeekFrom::Current(0)), Ok(relative));
        assert_eq!(w, before);
        assert_eq!(w.seek(SeekFrom::Current(0)), Ok(relative));
        assert_eq!(w, before);
    }
}

#[test]
fn seek_in_a_window_that_shows_nothing_reports_zero() {
    let mut w = window(20, 20, false);
    assert_eq!(w.seek(SeekFrom::Start(5)), Ok(0));
    assert_eq!(w.seek(SeekFrom::End(-5)), Ok(0));
    assert_eq!(w.seek(SeekFrom::Current(-5)), Ok(0));
    assert_eq!(w.seek(SeekFrom::Current(i64::MIN)), Ok(0));
    assert_eq!(w.seek(SeekFrom::Current(7)), Ok(0));
    assert_eq!(w, window(20, 20, false));
}

#[test]
fn seek_forwards_wraps_at_two_to_the_sixty_fourth() {
    let mut w = window(0, usize::MAX, false);
    assert_eq!(w.seek(SeekFrom::End(0)), Ok(usize::MAX as u64));
    // the base is 2^64 - 1 on a 64-bit machine: adding 2 wraps to 1
    if usize::MAX as u64 == u64::MAX {
        assert_eq!(w.seek(SeekFrom::Current(2)), Ok(1));
        assert_eq!(w.seek(SeekFrom::End(i64::MAX)), Ok(i64::MAX as u64 - 1));
    }
}

#[test]
fn seek_backwards_by_the_largest_magnitude() {
    let mut w = window(0, usize::MAX, false);
    if usize::MAX as u64 == u64::MAX {
        assert_eq!(w.seek(SeekFrom::End(i64::MIN)), Ok((1u64 << 63) - 1));
        assert_eq!(w.seek(SeekFrom::Current(i64::MIN)), Err(InvalidSeek));
        assert_eq!(w.seek(SeekFrom::Current(1)), Ok(1u64 << 63));
        assert_eq!(w.seek(SeekFrom::Current(i64::MIN)), Ok(0));
    }
}

#[test]
fn set_position_wraps_modulo_length() {
    let mut w = window(20, 100, false);
    w.set_position(5);
    assert_eq!(w.position(), 5);
    w.set_position(80);
    assert_eq!(w.position(), 0);
    w.set_position(205);
    assert_eq!(w.position(), 45);
    assert_eq!(w.position, 65);
    w.set_position(u64::MAX);
    assert_eq!(w.position(), u64::MAX % 80);
}

#[test]
fn set_position_in_a_window_that_shows_nothing_takes_the_value_as_it_is() {
    let mut w = window(20, 20, false);
    w.set_position(7);
    assert_eq!(w.position(), 7);
    assert_eq!(w.position, 27);
    // such a window still reads and writes nothing, and its seeks still report 0
    let mut stream = counting_stream();
    let mut buffer = [0u8; 4];
    assert_eq!(w.read_from(&mut stream, &mut buffer), Ok(0));
    assert_eq!(w.write_to(&mut stream, &[1, 2]), Ok(0));
    assert_eq!(w.seek(SeekFrom::Current(0)), Ok(0));
    assert_eq!(w.position(), 7);
}

#[test]
fn len_is_end_minus_start() {
    assert_eq!(window(20, 100, false).len(), 80);
    assert_eq!(window(20, 20, false).len(), 0);
    assert_eq!(window(0, usize::MAX, false).len(), usize::MAX);
}

#[test]
fn read_is_clipped_to_the_buffer_and_to_the_window() {
    let mut stream = counting_stream();
    let mut w = window(20, 30, false);
    let mut buffer = [0u8; 4];
    assert_eq!(w.read_from(&mut stream, &mut buffer), Ok(4));
    assert_eq!(buffer, [20, 21, 22, 23]);
    assert_eq!(w.position(), 4);
    let mut buffer = [0xffu8; 16];
    assert_eq!(w.read_from(&mut stream, &mut buffer), Ok(6));
    assert_eq!(&buffer[..6], &[24, 25, 26, 27, 28, 29]);
    // what lies behind the bytes read is as it was
    assert_eq!(&buffer[6..], &[0xffu8; 10]);
    assert_eq!(w.position, 30);
    // at the end of the window nothing is read and nothing moves
    let at = stream.position();
    assert_eq!(w.read_from(&mut stream, &mut buffer), Ok(0));
    assert_eq!(w.position, 30);
    assert_eq!(stream.position(), at);
}

#[test]
fn read_stops_where_the_stream_ends() {
    let mut stream = MemoryStream::new(vec![1, 2, 3, 4, 5]);
    let mut w = window(3, 10, false);
    let mut buffer = [0u8; 8];
    assert_eq!(w.read_from(&mut stream, &mut buffer), Ok(2));
    assert_eq!(buffer, [4, 5, 0, 0, 0, 0, 0, 0]);
    assert_eq!(w.position, 5);
    assert_eq!(w.read_from(&mut stream, &mut buffer), Ok(0));
    assert_eq!(w.position, 5);
    // a window that starts past the stream's end reads nothing
    let mut w = window(7, 10, false);
    assert_eq!(w.read_from(&mut stream, &mut buffer), Ok(0));
    assert_eq!(w.position, 7);
    assert_eq!(stream.position(), 7);
}

#[test]
fn read_into_an_empty_buffer_moves_only_the_stream() {
    let mut stream = counting_stream();
    let mut w = window(20, 30, false);
    assert_eq!(w.read_from(&mut stream, &mut []), Ok(0));
    assert_eq!(w.position, 20);
    assert_eq!(stream.position(), 20);
}

#[test]
fn preserving_transfer_puts_the_stream_back() {
    let mut stream = counting_stream();
    stream.set_position(7);
    let mut w = window(20, 100, true);
    let mut buffer = [0u8; 4];
    assert_eq!(w.read_from(&mut stream, &mut buffer), Ok(4));
    assert_eq!(buffer, [20, 21, 22, 23]);
    assert_eq!(stream.position(), 7);
    assert_eq!(w.write_to(&mut stream, &[9, 9, 9]), Ok(3));
    assert_eq!(stream.position(), 7);
    assert_eq!(w.position, 27);
    assert_eq!(&stream.get_ref()[20..28], &[20, 21, 22, 23, 9, 9, 9, 27]);
}

#[test]
fn other_transfer_leaves_the_stream_at_the_windows_cursor() {
    let mut stream = counting_stream();
    stream.set_position(7);
    let mut w = window(20, 100, false);
    let mut buffer = [0u8; 4];
    assert_eq!(w.read_from(&mut stream, &mut buffer), Ok(4));
    assert_eq!(stream.position(), 24);
    assert_eq!(stream.position(), w.position);
    assert_eq!(stream.position(), w.start as u64 + w.position());
    assert_eq!(w.write_to(&mut stream, &[9, 9, 9]), Ok(3));
    assert_eq!(stream.position(), 27);
    assert_eq!(stream.position(), w.start as u64 + w.position());
}

#[test]
fn write_is_clipped_to_the_window() {
    let mut stream = MemoryStream::new(Vec::new());
    let mut w = window(20, 100, false);
    assert_eq!(w.write_to(&mut stream, &[0, 1, 2, 3, 4]), Ok(5));
    let mut expected = vec![0u8; 20];
    expected.extend_from_slice(&[0, 1, 2, 3, 4]);
    assert_eq!(stream.get_ref(), &expected);
    assert_eq!(w.position(), 5);
    assert_eq!(w.seek(SeekFrom::End(0)), Ok(80));
    assert_eq!(w.write_to(&mut stream, &[0, 1, 2, 3, 4]), Ok(0));
    assert_eq!(stream.get_ref(), &expected);
    assert_eq!(w.seek(SeekFrom::End(-3)), Ok(77));
    assert_eq!(w.write_to(&mut stream, &[5, 6, 7, 8, 9]), Ok(3));
    assert_eq!(stream.get_ref().len(), 100);
    assert_eq!(&stream.get_ref()[97..], &[5, 6, 7]);
    assert_eq!(&stream.get_ref()[25..97], &[0u8; 72][..]);
    assert_eq!(w.position, 100);
}

#[test]
fn write_of_nothing_changes_nothing_in_the_stream() {
    let mut stream = MemoryStream::new(vec![1, 2, 3]);
    let mut w = window(10, 20, false);
    assert_eq!(w.write_to(&mut stream, &[]), Ok(0));
    assert_eq!(stream.get_ref(), &vec![1, 2, 3]);
    assert_eq!(stream.position(), 10);
    assert_eq!(w.position, 10);
}

#[test]
fn what_was_written_is_read_back() {
    let mut stream = counting_stream();
    let mut w = window(20, 100, true);
    let data = [200u8, 201, 202, 203, 204, 205];
    for relative in [0u64, 1, 37, 74] {
        w.set_position(relative);
        assert_eq!(w.write_to(&mut stream, &data), Ok(6));
        w.set_position(relative);
        let mut buffer = [0u8; 6];
        assert_eq!(w.read_from(&mut stream, &mut buffer), Ok(6));
        assert_eq!(buffer, data);
    }
    // at the window's edge only what fitted comes back
    w.set_position(77);
    assert_eq!(w.write_to(&mut stream, &data), Ok(3));
    w.set_position(77);
    let mut buffer = [0u8; 6];
    assert_eq!(w.read_from(&mut stream, &mut buffer), Ok(3));
    assert_eq!(buffer, [200, 201, 202, 0, 0, 0]);
    // and the byte just past the window is untouched
    assert_eq!(stream.get_ref()[100], 100);
    assert_eq!(stream.get_ref()[19], 19);
}

#[test]
fn window_at_the_last_offset_is_clipped_before_the_stream_could_refuse() {
    if usize::MAX as u64 == u64::MAX {
        let mut stream = MemoryStream::new(Vec::new());
        stream.set_position(3);
        let mut w = Window {
            start: usize::MAX - 4,
            end: usize::MAX,
            position: u64::MAX,
            preserve: true,
        };
        assert_eq!(w.write_to(&mut stream, &[1, 2]), Ok(0));
        assert_eq!(w.position, u64::MAX);
        assert_eq!(stream.position(), 3);
    }
}
