use vstd::prelude::*;

verus! {

/// The number that two bytes stand for, high byte first.
pub open spec fn pair_at(bytes: Seq<u8>, i: int) -> int
    recommends
        0 <= i,
        i + 2 <= bytes.len(),
{
    bytes[i] as int * 256 + bytes[i + 1] as int
}

/// Where the domain name that starts at `pos` ends on the wire: behind its
/// closing zero byte, or behind the two bytes of the pointer that closes it.
/// `None` where the name runs off the message or a label's first byte is
/// neither a length nor a pointer.
pub open spec fn name_end(bytes: Seq<u8>, pos: int) -> Option<int>
    decreases bytes.len() - pos,
{
    if pos < 0 || pos >= bytes.len() {
        None
    } else {
        let first = bytes[pos] as int;
        if first == 0 {
            Some(pos + 1)
        } else if first >= 192 {
            if pos + 2 <= bytes.len() {
                Some(pos + 2)
            } else {
                None
            }
        } else if first >= 64 {
            None
        } else if pos + 1 + first <= bytes.len() {
            name_end(bytes, pos + 1 + first)
        } else {
            None
        }
    }
}

/// Whether the bytes from `pos` to `end` are a list of type bitmaps as the
/// format has them: blocks of a window number, a length from 1 to 32, and
/// that many bytes, which fill the range exactly.
pub open spec fn bitmaps_fit(bytes: Seq<u8>, pos: int, end: int) -> bool
    decreases end - pos,
{
    if pos >= end {
        pos == end
    } else if pos + 2 > end {
        false
    } else {
        let len = bytes[pos + 1] as int;
        1 <= len <= 32 && pos + 2 + len <= end && bitmaps_fit(bytes, pos + 2 + len, end)
    }
}

/// The record types whose data is read by its parts, with what is left of
/// the announced length taken as the last part: SIG, KEY, DS, RRSIG, NSEC,
/// DNSKEY, NSEC3, TLSA and CAA.
pub open spec fn read_by_parts(kind: int) -> bool {
    kind == 24 || kind == 25 || kind == 43 || kind == 46 || kind == 47 || kind == 48 || kind
        == 50 || kind == 52 || kind == 257
}

/// Whether the data of a record of such a type, from `start` to `end`, is
/// long enough for the parts that come before the last one, and, where the
/// last part is a list of type bitmaps, whether that list is sound.
pub open spec fn data_readable(bytes: Seq<u8>, kind: int, start: int, end: int) -> bool {
    if kind == 52 {
        end - start >= 3
    } else if kind == 257 {
        end - start >= 2 && end - start >= bytes[start + 1] as int + 2
    } else if kind == 43 || kind == 48 || kind == 25 {
        end - start >= 4
    } else if kind == 47 {
        match name_end(bytes, start) {
            Some(after) => after <= end && bitmaps_fit(bytes, after, end),
            None => true,
        }
    } else if kind == 50 {
        &&& end - start >= 5
        &&& end - start >= 6 + bytes[start + 4] as int
        &&& end - start >= 6 + bytes[start + 4] as int + bytes[start + 5 + bytes[start
            + 4] as int] as int
        &&& bitmaps_fit(
            bytes,
            start + 6 + bytes[start + 4] as int + bytes[start + 5 + bytes[start + 4] as int] as int,
            end,
        )
    } else if kind == 24 || kind == 46 {
        end - start >= 18 && match name_end(bytes, start + 18) {
            Some(after) => after <= end,
            None => true,
        }
    } else {
        true
    }
}

/// Whether the `count` records from `pos` on can be read: none of them is of
/// a type read by its parts with data too short for them or cut off by the
/// end of the message. The walk goes as a reader of the message goes: over
/// each record's name, ten bytes of type, class, time to live and length of
/// data, and the data; a record of type 0 is taken to have no data. Where
/// the message ends or a name cannot be followed, no record is left to read.
pub open spec fn records_readable(bytes: Seq<u8>, pos: int, count: int) -> bool
    decreases count,
{
    if count <= 0 {
        true
    } else {
        match name_end(bytes, pos) {
            None => true,
            Some(head) => if head + 10 > bytes.len() {
                true
            } else {
                let kind = pair_at(bytes, head);
                let announced = pair_at(bytes, head + 8);
                let start = head + 10;
                if announced == 0 || kind == 0 {
                    records_readable(bytes, start, count - 1)
                } else if start + announced > bytes.len() {
                    !read_by_parts(kind)
                } else if read_by_parts(kind) && !data_readable(
                    bytes,
                    kind,
                    start,
                    start + announced,
                ) {
                    false
                } else {
                    records_readable(bytes, start + announced, count - 1)
                }
            },
        }
    }
}

/// Where the `count` questions from `pos` on end: each is a name and four
/// bytes of type and class. `None` where the message ends before.
pub open spec fn questions_end(bytes: Seq<u8>, pos: int, count: int) -> Option<int>
    decreases count,
{
    if count <= 0 {
        Some(pos)
    } else {
        match name_end(bytes, pos) {
            None => None,
            Some(after) => if after + 4 <= bytes.len() {
                questions_end(bytes, after + 4, count - 1)
            } else {
                None
            },
        }
    }
}

/// Whether the message holds, where its header and questions put its
/// records, a record that cannot be read (see `records_readable`).
pub open spec fn holds_unreadable_record(bytes: Seq<u8>) -> bool {
    bytes.len() >= 12 && match questions_end(bytes, 12, pair_at(bytes, 4)) {
        None => false,
        Some(pos) => !records_readable(
            bytes,
            pos,
            pair_at(bytes, 6) + pair_at(bytes, 8) + pair_at(bytes, 10),
        ),
    }
}

/// Finds the end of the name that starts at `start`.
pub fn skip_name(bytes: &[u8], start: usize) -> (out: Option<usize>)
    ensures
        match out {
            Some(end) => name_end(bytes@, start as int) == Some(end as int) && start < end
                <= bytes@.len(),
            None => name_end(bytes@, start as int).is_none(),
        },
{
    let n: usize = bytes.len();
    let mut pos: usize = start;
    proof {
        lemma_name_end_bounds(bytes@, start as int);
    }
    loop
        invariant
            n == bytes@.len(),
            start <= pos,
            name_end(bytes@, pos as int) == name_end(bytes@, start as int),
            name_end(bytes@, pos as int) matches Some(end) ==> pos < end <= n,
        decreases n - pos,
    {
        if pos >= n {
            return None;
        }
        let first: u8 = bytes[pos];
        if first == 0 {
            return Some(pos + 1);
        }
        if first >= 192 {
            if n - pos >= 2 {
                return Some(pos + 2);
            }
            return None;
        }
        if first >= 64 {
            return None;
        }
        let step: usize = 1 + first as usize;
        if n - pos < step {
            return None;
        }
        proof {
            lemma_name_end_bounds(bytes@, pos + step);
        }
        pos = pos + step;
    }
}

/// A name ends behind its start and within the message.
pub proof fn lemma_name_end_bounds(bytes: Seq<u8>, pos: int)
    ensures
        name_end(bytes, pos) matches Some(end) ==> pos < end <= bytes.len(),
    decreases bytes.len() - pos,
{
    if 0 <= pos < bytes.len() {
        let first = bytes[pos] as int;
        if 0 < first < 64 && pos + 1 + first <= bytes.len() {
            lemma_name_end_bounds(bytes, pos + 1 + first);
        }
    }
}

/// Checks a list of type bitmaps.
pub fn check_bitmaps(bytes: &[u8], start: usize, end: usize) -> (ok: bool)
    requires
        start <= end <= bytes@.len(),
    ensures
        ok == bitmaps_fit(bytes@, start as int, end as int),
{
    let mut pos: usize = start;
    while pos < end
        invariant
            start <= pos <= end <= bytes@.len(),
            bitmaps_fit(bytes@, pos as int, end as int) == bitmaps_fit(
                bytes@,
                start as int,
                end as int,
            ),
        decreases end - pos,
    {
        if end - pos < 2 {
            return false;
        }
        let len: usize = bytes[pos + 1] as usize;
        if len < 1 || len > 32 || end - pos - 2 < len {
            return false;
        }
        pos = pos + 2 + len;
    }
    true
}

/// Checks the data of a record of a type that is read by its parts.
pub fn check_data(bytes: &[u8], kind: u32, start: usize, end: usize) -> (ok: bool)
    requires
        start < end <= bytes@.len(),
    ensures
        ok == data_readable(bytes@, kind as int, start as int, end as int),
{
    let size: usize = end - start;
    if kind == 52 {
        size >= 3
    } else if kind == 257 {
        size >= 2 && size >= bytes[start + 1] as usize + 2
    } else if kind == 43 || kind == 48 || kind == 25 {
        size >= 4
    } else if kind == 47 {
        match skip_name(bytes, start) {
            Some(after) => after <= end && check_bitmaps(bytes, after, end),
            None => true,
        }
    } else if kind == 50 {
        if size < 5 {
            return false;
        }
        let salt: usize = bytes[start + 4] as usize;
        if size < 6 + salt {
            return false;
        }
        let hash: usize = bytes[start + 5 + salt] as usize;
        if size < 6 + salt + hash {
            return false;
        }
        check_bitmaps(bytes, start + 6 + salt + hash, end)
    } else if kind == 24 || kind == 46 {
        if size < 18 {
            return false;
        }
        match skip_name(bytes, start + 18) {
            Some(after) => after <= end,
            None => true,
        }
    } else {
        true
    }
}

/// Walks over `count` records from `start` on.
pub fn check_records(bytes: &[u8], start: usize, count: u32) -> (ok: bool)
    requires
        start <= bytes@.len(),
    ensures
        ok == records_readable(bytes@, start as int, count as int),
{
    let n: usize = bytes.len();
    let mut pos: usize = start;
    let mut left: u32 = count;
    while left > 0
        invariant
            n == bytes@.len(),
            pos <= n,
            records_readable(bytes@, pos as int, left as int) == records_readable(
                bytes@,
                start as int,
                count as int,
            ),
        decreases left,
    {
        let head: usize = match skip_name(bytes, pos) {
            None => {
                return true;
            },
            Some(head) => head,
        };
        if n - head < 10 {
            return true;
        }
        let kind: u32 = (bytes[head] as u32) * 256 + (bytes[head + 1] as u32);
        let announced: usize = (bytes[head + 8] as usize) * 256 + (bytes[head + 9] as usize);
        let data: usize = head + 10;
        if announced == 0 || kind == 0 {
            pos = data;
        } else {
            let by_parts = kind == 24 || kind == 25 || kind == 43 || kind == 46 || kind == 47
                || kind == 48 || kind == 50 || kind == 52 || kind == 257;
            if n - data < announced {
                return !by_parts;
            }
            if by_parts && !check_data(bytes, kind, data, data + announced) {
                return false;
            }
            pos = data + announced;
        }
        left = left - 1;
    }
    true
}

/// Walks over `count` questions from `start` on.
pub fn skip_questions(bytes: &[u8], start: usize, count: u32) -> (out: Option<usize>)
    requires
        start <= bytes@.len(),
    ensures
        match out {
            Some(end) => questions_end(bytes@, start as int, count as int) == Some(end as int)
                && end <= bytes@.len(),
            None => questions_end(bytes@, start as int, count as int).is_none(),
        },
{
    let n: usize = bytes.len();
    let mut pos: usize = start;
    let mut left: u32 = count;
    while left > 0
        invariant
            n == bytes@.len(),
            pos <= n,
            questions_end(bytes@, pos as int, left as int) == questions_end(
                bytes@,
                start as int,
                count as int,
            ),
        decreases left,
    {
        let after: usize = match skip_name(bytes, pos) {
            None => {
                return None;
            },
            Some(after) => after,
        };
        if n - after < 4 {
            return None;
        }
        pos = after + 4;
        left = left - 1;
    }
    Some(pos)
}

/// Looks through a message for a record that cannot be read.
pub fn find_unreadable_record(bytes: &[u8]) -> (found: bool)
    ensures
        found == holds_unreadable_record(bytes@),
{
    if bytes.len() < 12 {
        return false;
    }
    let questions: u32 = (bytes[4] as u32) * 256 + (bytes[5] as u32);
    let answers: u32 = (bytes[6] as u32) * 256 + (bytes[7] as u32);
    let authorities: u32 = (bytes[8] as u32) * 256 + (bytes[9] as u32);
    let additionals: u32 = (bytes[10] as u32) * 256 + (bytes[11] as u32);
    match skip_questions(bytes, 12, questions) {
        None => false,
        Some(pos) => !check_records(bytes, pos, answers + authorities + additionals),
    }
}

} // verus!
