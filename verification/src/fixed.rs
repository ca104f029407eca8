//! The fixed-size builder: a command list is measured first and written
//! second, so that the buffer can be of exactly the size needed and nothing
//! has to grow.
//!
//! The encoding is that of the dynamic builder, command for command.

use crate::builder::{appended, lemma_appended_push};
use crate::command::{all_valid, widths, Command};
use crate::ledger::{
    lemma_offset_step, lemma_offsets, lemma_offsets_monotonic, lemma_total_is_sum, offset_of, sum,
    total_after, ReadLedger,
};
use std::ops::Range;
use vstd::prelude::*;

verus! {

/// The command bytes of a list: the bytes of its commands, one after the
/// other.
pub open spec fn image(cmds: Seq<Command>) -> Seq<u8>
    decreases cmds.len(),
{
    if cmds.len() == 0 {
        Seq::empty()
    } else {
        image(cmds.drop_last()) + cmds.last().encoding()
    }
}

/// Where in the command bytes the command at `index` begins.
pub open spec fn command_offset(cmds: Seq<Command>, index: int) -> nat
    recommends
        0 <= index <= cmds.len(),
{
    image(cmds.take(index)).len()
}

/// Where in the response the answer to the command at `index` begins.
pub open spec fn read_offset(cmds: Seq<Command>, index: int) -> nat
    recommends
        0 <= index <= cmds.len(),
{
    offset_of(0, widths(cmds), index)
}

/// The length of the whole response to a list.
pub open spec fn read_total(cmds: Seq<Command>) -> nat {
    total_after(0, widths(cmds))
}

/// What measuring a command list gives.
#[derive(Debug, Copy, Clone, PartialEq, Eq, Structural)]
pub struct Layout {
    /// The number of command bytes.
    pub command_len: usize,
    /// The number of response bytes.
    pub read_len: usize,
}

/// The bytes of one more command come after those of the commands before
/// it.
pub proof fn lemma_image_step(cmds: Seq<Command>, index: int)
    requires
        0 <= index < cmds.len(),
    ensures
        image(cmds.take(index + 1)) == image(cmds.take(index)) + cmds[index].encoding(),
        command_offset(cmds, index + 1) == command_offset(cmds, index)
            + cmds[index].encoding().len(),
{
    assert(cmds.take(index + 1).drop_last() =~= cmds.take(index));
}

/// A command further down the list begins no earlier.
pub proof fn lemma_command_offset_monotonic(cmds: Seq<Command>, earlier: int, later: int)
    requires
        0 <= earlier <= later <= cmds.len(),
    ensures
        command_offset(cmds, earlier) <= command_offset(cmds, later),
        command_offset(cmds, cmds.len() as int) == image(cmds).len(),
    decreases later - earlier,
{
    assert(cmds.take(cmds.len() as int) =~= cmds);
    if earlier < later {
        lemma_image_step(cmds, later - 1);
        lemma_command_offset_monotonic(cmds, earlier, later - 1);
    }
}

/// In the command bytes of a list, each command's bytes lie from its offset
/// to the offset of the next.
pub proof fn lemma_image_at(cmds: Seq<Command>, index: int)
    requires
        0 <= index < cmds.len(),
    ensures
        command_offset(cmds, index) <= command_offset(cmds, index + 1) <= image(cmds).len(),
        image(cmds).subrange(
            command_offset(cmds, index) as int,
            command_offset(cmds, index + 1) as int,
        ) == cmds[index].encoding(),
    decreases cmds.len(),
{
    let front = cmds.drop_last();
    let from = command_offset(cmds, index) as int;
    let to = command_offset(cmds, index + 1) as int;
    lemma_image_step(cmds, index);
    lemma_command_offset_monotonic(cmds, index + 1, cmds.len() as int);
    if index == cmds.len() - 1 {
        assert(cmds.take(index) =~= front);
        assert(cmds.take(index + 1) =~= cmds);
        assert(image(cmds).subrange(from, to) =~= cmds[index].encoding());
    } else {
        lemma_image_at(front, index);
        assert(front.take(index) =~= cmds.take(index));
        assert(front.take(index + 1) =~= cmds.take(index + 1));
        assert(image(cmds).subrange(from, to) =~= image(front).subrange(from, to));
    }
}

/// The end of the response: the offset after the last command.
proof fn lemma_read_total(cmds: Seq<Command>)
    ensures
        read_offset(cmds, cmds.len() as int) == read_total(cmds),
{
    assert(widths(cmds).take(cmds.len() as int) =~= widths(cmds));
}

/// Measures a command list: the number of command bytes and the number of
/// response bytes.
///
/// `None` comes back, before anything is written anywhere, where a command
/// asks for more than its kind can carry, and where one of the two numbers
/// does not fit in `usize`.
pub fn layout(cmds: &[Command]) -> (out: Option<Layout>)
    ensures
        out is Some <==> all_valid(cmds@) && image(cmds@).len() <= usize::MAX && read_total(cmds@)
            <= usize::MAX,
        out matches Some(sizes) ==> sizes.command_len == image(cmds@).len() && sizes.read_len
            == read_total(cmds@),
{
    let mut command_len: usize = 0;
    let mut read_len: usize = 0;
    let mut i: usize = 0;
    while i < cmds.len()
        invariant
            i <= cmds@.len(),
            forall|j: int| 0 <= j < i ==> (#[trigger] cmds@[j]).valid(),
            command_len == command_offset(cmds@, i as int),
            read_len == read_offset(cmds@, i as int),
        decreases cmds@.len() - i,
    {
        let cmd = &cmds[i];
        if !cmd.is_valid() {
            return None;
        }
        proof {
            lemma_image_step(cmds@, i as int);
            lemma_offset_step(0, widths(cmds@), i as int);
            lemma_command_offset_monotonic(cmds@, i + 1, cmds@.len() as int);
            lemma_offsets_monotonic(0, widths(cmds@), i + 1, cmds@.len() as int);
            lemma_read_total(cmds@);
        }
        match command_len.checked_add(cmd.encoded_len()) {
            Some(sum) => {
                command_len = sum;
            },
            None => {
                return None;
            },
        }
        match read_len.checked_add(cmd.response_len()) {
            Some(sum) => {
                read_len = sum;
            },
            None => {
                return None;
            },
        }
        i = i + 1;
    }
    proof {
        lemma_command_offset_monotonic(cmds@, 0, cmds@.len() as int);
        lemma_read_total(cmds@);
    }
    Some(Layout { command_len, read_len })
}

/// Writes the command bytes of a list into a buffer of exactly their length.
pub fn encode_into(cmds: &[Command], buf: &mut [u8])
    requires
        all_valid(cmds@),
        old(buf)@.len() == image(cmds@).len(),
    ensures
        final(buf)@ == image(cmds@),
{
    let mut at: usize = 0;
    let mut i: usize = 0;
    while i < cmds.len()
        invariant
            i <= cmds@.len(),
            all_valid(cmds@),
            buf@.len() == image(cmds@).len(),
            at == command_offset(cmds@, i as int),
            at <= buf@.len(),
            buf@.subrange(0, at as int) == image(cmds@.take(i as int)),
        decreases cmds@.len() - i,
    {
        proof {
            lemma_image_step(cmds@, i as int);
            lemma_command_offset_monotonic(cmds@, i + 1, cmds@.len() as int);
        }
        let ghost before = buf@;
        let end: usize = cmds[i].write(buf, at);
        assert(buf@.subrange(0, end as int) =~= before.subrange(0, at as int)
            + cmds@[i as int].encoding());
        at = end;
        i = i + 1;
    }
    assert(cmds@.take(cmds@.len() as int) =~= cmds@);
    assert(buf@.subrange(0, at as int) =~= buf@);
}

/// Where in the response the answer to each command of a list will lie.
///
/// The range of a command that reads nothing is empty.
pub fn read_ranges(cmds: &[Command]) -> (ranges: Vec<Range<usize>>)
    requires
        all_valid(cmds@),
        read_total(cmds@) <= usize::MAX,
    ensures
        ranges@.len() == cmds@.len(),
        forall|i: int|
            0 <= i < cmds@.len() ==> (#[trigger] ranges@[i]).start == read_offset(cmds@, i)
                && ranges@[i].end == read_offset(cmds@, i) + cmds@[i].read_width(),
{
    let mut ledger = ReadLedger::new();
    let mut ranges: Vec<Range<usize>> = Vec::new();
    let mut i: usize = 0;
    while i < cmds.len()
        invariant
            i <= cmds@.len(),
            all_valid(cmds@),
            read_total(cmds@) <= usize::MAX,
            ledger@ == read_offset(cmds@, i as int),
            ranges@.len() == i,
            forall|j: int|
                0 <= j < i ==> (#[trigger] ranges@[j]).start == read_offset(cmds@, j)
                    && ranges@[j].end == read_offset(cmds@, j) + cmds@[j].read_width(),
        decreases cmds@.len() - i,
    {
        proof {
            lemma_offset_step(0, widths(cmds@), i as int);
            lemma_offsets_monotonic(0, widths(cmds@), i + 1, cmds@.len() as int);
            lemma_read_total(cmds@);
        }
        let range = ledger.declare(cmds[i].response_len());
        ranges.push(range);
        i = i + 1;
    }
    ranges
}

/// Measures a command list and writes its command bytes into a buffer made
/// to measure. Hands back the buffer and the number of response bytes, or
/// `None` where [`layout`] does.
pub fn encode(cmds: &[Command]) -> (out: Option<(Vec<u8>, usize)>)
    ensures
        out is Some <==> all_valid(cmds@) && image(cmds@).len() <= usize::MAX && read_total(cmds@)
            <= usize::MAX,
        out matches Some(encoded) ==> encoded.0@ == image(cmds@) && encoded.1 == read_total(cmds@),
{
    match layout(cmds) {
        Some(sizes) => {
            let mut bytes: Vec<u8> = vec![0u8; sizes.command_len];
            encode_into(cmds, bytes.as_mut_slice());
            Some((bytes, sizes.read_len))
        },
        None => None,
    }
}

/// Of any command list: the answer to each command begins at the sum of the
/// response widths of the commands before it and is as wide as the command's
/// own response, and the whole response is as long as the sum of all the
/// widths.
pub proof fn lemma_read_offsets(cmds: Seq<Command>, index: int)
    requires
        0 <= index < cmds.len(),
    ensures
        read_offset(cmds, index) == sum(widths(cmds).take(index)),
        read_offset(cmds, index + 1) == read_offset(cmds, index) + cmds[index].read_width(),
        read_total(cmds) == sum(widths(cmds)),
{
    lemma_offsets(widths(cmds), index);
}

/// The two builders agree. Of any command list: the buffer that the dynamic
/// builder holds after the list has been appended to `prefix`, command by
/// command, is `prefix` followed by the bytes that the fixed-size builder
/// writes; and the ledger that stood at `start` has moved on by the length
/// of the response that the fixed-size builder measures.
pub proof fn lemma_builders_agree(prefix: Seq<u8>, start: nat, cmds: Seq<Command>)
    ensures
        appended(prefix, cmds) == prefix + image(cmds),
        total_after(start, widths(cmds)) == start + read_total(cmds),
    decreases cmds.len(),
{
    lemma_total_is_sum(start, widths(cmds));
    lemma_total_is_sum(0, widths(cmds));
    if cmds.len() == 0 {
        assert(prefix + image(cmds) =~= prefix);
    } else {
        let front = cmds.drop_last();
        assert(front.push(cmds.last()) =~= cmds);
        lemma_appended_push(prefix, front, cmds.last());
        lemma_builders_agree(prefix, start, front);
        assert(prefix + image(front) + cmds.last().encoding() =~= prefix + image(cmds));
    }
}

} // verus!
