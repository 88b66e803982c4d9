//! The NUMA topology of the machine: which nodes there are, which CPUs
//! and how much memory each has.

use vstd::prelude::*;
use vstd::string::StringExecFns;
use crate::runtime_cpu::Error;
use crate::text::{
    all_digits, char_is_whitespace, chars_of, contains_chars, contains_text, find_char, is_whitespace, lines_of,
    parse_u32, parse_u64, parsed_u32, parsed_u64, pieces, slice_chars, split_chars, split_lines, split_on,
    string_of, trim_chars, trimmed,
};

verus! {

/// One NUMA node.
#[derive(Debug, Clone)]
pub struct NumaNode {
    /// The number of the node.
    pub node_id: u32,
    /// The CPU cores of the node.
    pub cpu_cores: Vec<u32>,
    /// All memory, in bytes.
    pub total_memory: u64,
    /// Free memory, in bytes.
    pub free_memory: u64,
    /// Whether huge pages can be had.
    pub hugepages_available: bool,
    /// The number of free huge pages.
    pub hugepages_free: u64,
    /// The size of a huge page, in bytes.
    pub hugepage_size: u64,
}

/// The numbers from `start` up to and with `end`.
pub open spec fn range_incl(start: u32, end: u32) -> Seq<u32> {
    if start <= end {
        Seq::new((end - start + 1) as nat, |i: int| (start + i) as u32)
    } else {
        Seq::empty()
    }
}

/// The CPUs that one part of a CPU list names: a range `a-b` names the
/// CPUs from `a` to `b`, a single number names one CPU, and a part that
/// is neither names none.
pub open spec fn cpus_of_part(part: Seq<char>) -> Seq<u32> {
    if part.contains('-') {
        let bounds = split_on(part, '-');
        if bounds.len() == 2 && parsed_u32(bounds[0]) is Some && parsed_u32(bounds[1]) is Some {
            range_incl(parsed_u32(bounds[0])->0, parsed_u32(bounds[1])->0)
        } else {
            Seq::empty()
        }
    } else {
        match parsed_u32(part) {
            Some(cpu) => seq![cpu],
            None => Seq::empty(),
        }
    }
}

/// The CPUs that the parts name, one part after the other.
pub open spec fn cpus_of_parts(parts: Seq<Seq<char>>) -> Seq<u32>
    decreases parts.len(),
{
    if parts.len() == 0 {
        Seq::empty()
    } else {
        cpus_of_parts(parts.drop_last()) + cpus_of_part(parts.last())
    }
}

/// The CPUs that a CPU list such as `0-3,8-11` names.
pub open spec fn cpulist(list: Seq<char>) -> Seq<u32> {
    cpus_of_parts(split_on(trimmed(list), ','))
}

/// The sum of the numbers, cut to the range of `u64`.
pub open spec fn sum_cut(v: Seq<u64>) -> u64
    decreases v.len(),
{
    if v.len() == 0 {
        0
    } else if sum_cut(v.drop_last()) + v.last() > u64::MAX {
        u64::MAX
    } else {
        (sum_cut(v.drop_last()) + v.last()) as u64
    }
}

/// The place of the last node that has the most free memory.
pub open spec fn richest(nodes: Seq<NumaNode>) -> int
    decreases nodes.len(),
{
    if nodes.len() <= 1 {
        0
    } else if nodes.last().free_memory >= nodes[richest(nodes.drop_last())].free_memory {
        nodes.len() - 1
    } else {
        richest(nodes.drop_last())
    }
}

/// `kb` kibibytes in bytes, cut to the range of `u64`.
pub open spec fn kibibytes(kb: u64) -> u64 {
    if kb * 1024 > u64::MAX {
        u64::MAX
    } else {
        (kb * 1024) as u64
    }
}

/// `kb` kibibytes in bytes, cut to the range of `u64`.
pub fn kibibytes_to_bytes(kb: u64) -> (bytes: u64)
    ensures
        bytes == kibibytes(kb),
{
    if kb > u64::MAX / 1024 {
        u64::MAX
    } else {
        kb * 1024
    }
}

/// Where the word ends that holds the place `from`: at the next white
/// space, or at the end of the line.
pub open spec fn word_end(line: Seq<char>, from: int) -> int
    decreases line.len() - from,
{
    if from < 0 || from >= line.len() || char_is_whitespace(line[from]) {
        from
    } else {
        word_end(line, from + 1)
    }
}

/// A word goes on beyond its first character, and not beyond the line.
pub proof fn word_end_bounds(line: Seq<char>, from: int)
    requires
        0 <= from <= line.len(),
    ensures
        from <= word_end(line, from) <= line.len(),
        from < line.len() && !char_is_whitespace(line[from]) ==> from < word_end(line, from),
    decreases line.len() - from,
{
    if from < line.len() && !char_is_whitespace(line[from]) {
        word_end_bounds(line, from + 1);
    }
}

/// The first word at or after the place `from` that is made of digits
/// alone, where `from` is no place inside a word; words are what stands
/// between white space.
pub open spec fn number_word(line: Seq<char>, from: int) -> Option<Seq<char>>
    decreases line.len() - from,
    via number_word_ends
{
    if from < 0 || from >= line.len() {
        None
    } else if char_is_whitespace(line[from]) {
        number_word(line, from + 1)
    } else {
        let end = word_end(line, from);
        if all_digits(line.subrange(from, end)) {
            Some(line.subrange(from, end))
        } else {
            number_word(line, end)
        }
    }
}

#[via_fn]
proof fn number_word_ends(line: Seq<char>, from: int) {
    if 0 <= from < line.len() {
        word_end_bounds(line, from);
    }
}

/// The number that a line tells: its first word made of digits alone,
/// where that is a `u64`. In `MemTotal:    12345678 kB` that is the
/// number of kibibytes; in a line that starts with `Node 0` it is the
/// number of the node.
pub open spec fn kb_value(line: Seq<char>) -> Option<u64> {
    match number_word(line, 0) {
        Some(word) => parsed_u64(word),
        None => None,
    }
}

/// The total and the free memory, in bytes, that the lines of a node's
/// `meminfo` tell: the last line with `MemTotal:` that tells a number
/// gives the total, the last such line with `MemFree:` and without
/// `MemTotal:` the free memory; what no line tells is zero.
pub open spec fn meminfo_of(lines: Seq<Seq<char>>) -> (u64, u64)
    decreases lines.len(),
{
    if lines.len() == 0 {
        (0, 0)
    } else {
        let before = meminfo_of(lines.drop_last());
        let line = lines.last();
        if contains_text(line, "MemTotal:"@) {
            match kb_value(line) {
                Some(kb) => (kibibytes(kb), before.1),
                None => before,
            }
        } else if contains_text(line, "MemFree:"@) {
            match kb_value(line) {
                Some(kb) => (before.0, kibibytes(kb)),
                None => before,
            }
        } else {
            before
        }
    }
}

/// The size of a huge page: two mebibytes.
pub const HUGEPAGE_SIZE: u64 = 2097152;

/// The number of free huge pages that a text tells, zero where it tells
/// none.
pub open spec fn free_hugepages_of(text: Seq<char>) -> u64 {
    match parsed_u64(trimmed(text)) {
        Some(n) => n,
        None => 0,
    }
}

/// The node that the files of a node tell of, each file as its text
/// where it is there.
pub open spec fn node_told(
    node_id: u32,
    cpus: Option<Seq<char>>,
    meminfo: Option<Seq<char>>,
    free_hugepages: Option<Seq<char>>,
    node: NumaNode,
) -> bool {
    &&& node.node_id == node_id
    &&& node.cpu_cores@ == match cpus {
        Some(text) => cpulist(text),
        None => Seq::<u32>::empty(),
    }
    &&& (node.total_memory, node.free_memory) == match meminfo {
        Some(text) => meminfo_of(lines_of(text)),
        None => (0u64, 0u64),
    }
    &&& node.hugepages_free == match free_hugepages {
        Some(text) => free_hugepages_of(text),
        None => 0u64,
    }
    &&& node.hugepages_available == (node.hugepages_free > 0)
    &&& node.hugepage_size == if free_hugepages is Some {
        HUGEPAGE_SIZE
    } else {
        0u64
    }
}

/// The topology.
#[derive(Debug, Clone)]
pub struct NumaTopology {
    nodes: Vec<NumaNode>,
    num_nodes: u32,
    num_cpus: u32,
    numa_available: bool,
}

impl NumaTopology {
    /// The nodes.
    pub closed spec fn spec_nodes(&self) -> Seq<NumaNode> {
        self.nodes@
    }

    /// The number of nodes.
    pub closed spec fn spec_num_nodes(&self) -> u32 {
        self.num_nodes
    }

    /// The number of CPUs.
    pub closed spec fn spec_num_cpus(&self) -> u32 {
        self.num_cpus
    }

    /// Whether the machine has NUMA.
    pub closed spec fn spec_numa_available(&self) -> bool {
        self.numa_available
    }

    /// The CPUs that a CPU list such as `0-3,8-11` names.
    pub fn parse_cpulist(list: &str) -> (cpus: Vec<u32>)
        ensures
            cpus@ == cpulist(list@),
    {
        let chars = chars_of(list);
        let body = trim_chars(&chars);
        let parts = split_chars(&body, ',');
        let mut cpus: Vec<u32> = Vec::new();
        let mut k: usize = 0;
        while k < parts.len()
            invariant
                k <= parts.len(),
                cpus@ == cpus_of_parts(pieces(parts@).take(k as int)),
            decreases parts.len() - k,
        {
            let ghost all = pieces(parts@);
            let ghost before = cpus@;
            proof {
                assert(all.take(k + 1).drop_last() =~= all.take(k as int));
                assert(all.take(k + 1).last() == parts@[k as int]@);
            }
            let part = &parts[k];
            let dash = find_char(part, '-', 0);
            if dash < part.len() {
                proof {
                    assert(part@.contains('-'));
                }
                let bounds = split_chars(part, '-');
                if bounds.len() == 2 {
                    let lo = parse_u32(string_of(&bounds[0]).as_str());
                    let hi = parse_u32(string_of(&bounds[1]).as_str());
                    match (lo, hi) {
                        (Some(start), Some(end)) => {
                            if start <= end {
                                let mut c: u32 = start;
                                loop
                                    invariant_except_break
                                        start <= c <= end,
                                        cpus@ == before + range_incl(start, end).take(c - start),
                                    ensures
                                        cpus@ == before + range_incl(start, end),
                                    decreases end - c,
                                {
                                    let ghost shown = cpus@;
                                    cpus.push(c);
                                    proof {
                                        let whole = range_incl(start, end);
                                        assert(whole.take(c - start + 1) =~= whole.take(c - start).push(c));
                                        assert(cpus@ =~= before + whole.take(c - start + 1));
                                    }
                                    if c == end {
                                        proof {
                                            let whole = range_incl(start, end);
                                            assert(whole.take(c - start + 1) =~= whole);
                                        }
                                        break;
                                    }
                                    c = c + 1;
                                }
                            } else {
                                proof {
                                    assert(cpus@ =~= before + range_incl(start, end));
                                }
                            }
                        },
                        _ => {
                            proof {
                                assert(cpus@ =~= before + Seq::<u32>::empty());
                            }
                        },
                    }
                } else {
                    proof {
                        assert(cpus@ =~= before + Seq::<u32>::empty());
                    }
                }
            } else {
                proof {
                    if part@.contains('-') {
                        let w = choose|w: int| 0 <= w < part@.len() && part@[w] == '-';
                        assert(part@[w] != '-');
                    }
                }
                match parse_u32(string_of(part).as_str()) {
                    Some(cpu) => {
                        cpus.push(cpu);
                        proof {
                            assert(cpus@ =~= before + seq![cpu]);
                        }
                    },
                    None => {
                        proof {
                            assert(cpus@ =~= before + Seq::<u32>::empty());
                        }
                    },
                }
            }
            k = k + 1;
        }
        proof {
            assert(pieces(parts@).take(parts.len() as int) =~= pieces(parts@));
        }
        cpus
    }

    /// The number that a line of a node's `meminfo` tells: its first word
    /// made of digits alone.
    pub fn extract_kb_value(line: &str) -> (r: Option<u64>)
        ensures
            r == kb_value(line@),
    {
        let chars = chars_of(line);
        let mut from: usize = 0;
        while from < chars.len()
            invariant
                from <= chars.len(),
                chars@ == line@,
                number_word(chars@, from as int) == number_word(chars@, 0),
            decreases chars.len() - from,
        {
            if is_whitespace(chars[from]) {
                from = from + 1;
            } else {
                let mut end: usize = from + 1;
                let mut digits: bool = '0' <= chars[from] && chars[from] <= '9';
                proof {
                    let one = chars@.subrange(from as int, end as int);
                    assert(one =~= seq![chars@[from as int]]);
                    assert(one[0] == chars@[from as int]);
                }
                loop
                    invariant_except_break
                        from < end <= chars.len(),
                        word_end(chars@, end as int) == word_end(chars@, from as int),
                        digits == all_digits(chars@.subrange(from as int, end as int)),
                    ensures
                        from < end <= chars.len(),
                        end == word_end(chars@, from as int),
                        digits == all_digits(chars@.subrange(from as int, end as int)),
                    decreases chars.len() - end,
                {
                    if end >= chars.len() {
                        break;
                    }
                    if is_whitespace(chars[end]) {
                        break;
                    }
                    let c = chars[end];
                    proof {
                        let shorter = chars@.subrange(from as int, end as int);
                        let longer = chars@.subrange(from as int, end + 1);
                        assert(longer =~= shorter.push(c));
                        assert(longer.drop_last() =~= shorter);
                        if all_digits(longer) {
                            assert forall|j: int| 0 <= j < shorter.len() implies crate::text::is_digit(
                                #[trigger] shorter[j],
                            ) by {
                                assert(longer[j] == shorter[j]);
                            }
                            assert(longer[end - from] == c);
                        }
                    }
                    digits = digits && '0' <= c && c <= '9';
                    end = end + 1;
                }
                if digits {
                    let word = slice_chars(&chars, from, end);
                    return parse_u64(string_of(&word).as_str());
                }
                from = end;
            }
        }
        None
    }

    /// The total and the free memory of a node, in bytes, from the text
    /// of its `meminfo`.
    pub fn parse_meminfo(content: &str) -> (r: (u64, u64))
        ensures
            r == meminfo_of(lines_of(content@)),
    {
        let chars = chars_of(content);
        let lines = split_lines(&chars);
        let total_mark = chars_of("MemTotal:");
        let free_mark = chars_of("MemFree:");
        let mut total: u64 = 0;
        let mut free: u64 = 0;
        let mut k: usize = 0;
        while k < lines.len()
            invariant
                k <= lines.len(),
                total_mark@ == "MemTotal:"@,
                free_mark@ == "MemFree:"@,
                (total, free) == meminfo_of(pieces(lines@).take(k as int)),
            decreases lines.len() - k,
        {
            proof {
                let all = pieces(lines@);
                assert(all.take(k + 1).drop_last() =~= all.take(k as int));
                assert(all.take(k + 1).last() == lines@[k as int]@);
            }
            let line = &lines[k];
            if contains_chars(line, &total_mark) {
                match Self::extract_kb_value(string_of(line).as_str()) {
                    Some(kb) => {
                        total = kibibytes_to_bytes(kb);
                    },
                    None => {},
                }
            } else if contains_chars(line, &free_mark) {
                match Self::extract_kb_value(string_of(line).as_str()) {
                    Some(kb) => {
                        free = kibibytes_to_bytes(kb);
                    },
                    None => {},
                }
            }
            k = k + 1;
        }
        proof {
            assert(pieces(lines@).take(lines.len() as int) =~= pieces(lines@));
        }
        (total, free)
    }

    /// The node that its files tell of: the CPU list, the memory and the
    /// free huge pages of two mebibytes, each from the text of its file
    /// where the file is there.
    pub fn node_info(node_id: u32, cpus: Option<&str>, meminfo: Option<&str>, free_hugepages: Option<&str>) -> (node:
        NumaNode)
        ensures
            node_told(
                node_id,
                match cpus {
                    Some(text) => Some(text@),
                    None => None,
                },
                match meminfo {
                    Some(text) => Some(text@),
                    None => None,
                },
                match free_hugepages {
                    Some(text) => Some(text@),
                    None => None,
                },
                node,
            ),
    {
        let cpu_cores: Vec<u32> = match cpus {
            Some(text) => Self::parse_cpulist(text),
            None => Vec::new(),
        };
        let (total_memory, free_memory): (u64, u64) = match meminfo {
            Some(text) => Self::parse_meminfo(text),
            None => (0, 0),
        };
        let (hugepages_free, hugepage_size): (u64, u64) = match free_hugepages {
            Some(text) => {
                let body = trim_chars(&chars_of(text));
                let free: u64 = match parse_u64(string_of(&body).as_str()) {
                    Some(n) => n,
                    None => 0,
                };
                (free, HUGEPAGE_SIZE)
            },
            None => (0, 0),
        };
        NumaNode {
            node_id,
            cpu_cores,
            total_memory,
            free_memory,
            hugepages_available: hugepages_free > 0,
            hugepages_free,
            hugepage_size,
        }
    }

    /// The number of CPU cores over all nodes, cut to the range of `u32`.
    pub open spec fn core_count(nodes: Seq<NumaNode>) -> u32
        decreases nodes.len(),
    {
        if nodes.len() == 0 {
            0
        } else if Self::core_count(nodes.drop_last()) + nodes.last().cpu_cores@.len() > u32::MAX {
            u32::MAX
        } else {
            (Self::core_count(nodes.drop_last()) + nodes.last().cpu_cores@.len()) as u32
        }
    }

    /// The topology of the nodes that were found on a machine with NUMA.
    pub fn from_nodes(nodes: Vec<NumaNode>) -> (t: Self)
        requires
            nodes@.len() <= u32::MAX,
        ensures
            t.spec_nodes() == nodes@,
            t.spec_num_nodes() == nodes@.len(),
            t.spec_num_cpus() == Self::core_count(nodes@),
            t.spec_numa_available(),
    {
        let mut num_cpus: u32 = 0;
        let mut i: usize = 0;
        while i < nodes.len()
            invariant
                i <= nodes.len(),
                num_cpus == Self::core_count(nodes@.take(i as int)),
            decreases nodes.len() - i,
        {
            proof {
                assert(nodes@.take(i + 1).drop_last() =~= nodes@.take(i as int));
            }
            let cores = nodes[i].cpu_cores.len();
            num_cpus = if cores > (u32::MAX - num_cpus) as usize {
                u32::MAX
            } else {
                num_cpus + cores as u32
            };
            i = i + 1;
        }
        proof {
            assert(nodes@.take(nodes.len() as int) =~= nodes@);
        }
        let num_nodes = nodes.len() as u32;
        NumaTopology { nodes, num_nodes, num_cpus, numa_available: true }
    }

    /// The topology of a machine without NUMA: one node that holds all
    /// CPUs and all memory.
    pub fn single_node_fallback(num_cpus: u32, total_memory: u64, free_memory: u64) -> (t: Self)
        ensures
            t.spec_nodes().len() == 1,
            t.spec_nodes()[0].node_id == 0,
            t.spec_nodes()[0].cpu_cores@ == Seq::new(num_cpus as nat, |i: int| i as u32),
            t.spec_nodes()[0].total_memory == total_memory,
            t.spec_nodes()[0].free_memory == free_memory,
            !t.spec_nodes()[0].hugepages_available,
            t.spec_num_nodes() == 1,
            t.spec_num_cpus() == num_cpus,
            !t.spec_numa_available(),
    {
        let mut cpu_cores: Vec<u32> = Vec::new();
        let mut c: u32 = 0;
        while c < num_cpus
            invariant
                c <= num_cpus,
                cpu_cores@ == Seq::new(c as nat, |i: int| i as u32),
            decreases num_cpus - c,
        {
            cpu_cores.push(c);
            c = c + 1;
            assert(cpu_cores@ =~= Seq::new(c as nat, |i: int| i as u32));
        }
        let node = NumaNode {
            node_id: 0,
            cpu_cores,
            total_memory,
            free_memory,
            hugepages_available: false,
            hugepages_free: 0,
            hugepage_size: 0,
        };
        let mut nodes: Vec<NumaNode> = Vec::new();
        nodes.push(node);
        NumaTopology { nodes, num_nodes: 1, num_cpus, numa_available: false }
    }

    /// The topology from what was found: the nodes of a machine with
    /// NUMA, or the one node of a machine without.
    pub fn discover(found: Option<Vec<NumaNode>>, num_cpus: u32, total_memory: u64, free_memory: u64) -> (r: Result<
        Self,
        Error,
    >)
        requires
            found is Some ==> found->0@.len() <= u32::MAX,
        ensures
            r is Ok,
            match found {
                Some(nodes) => r->Ok_0.spec_nodes() == nodes@ && r->Ok_0.spec_numa_available(),
                None => {
                    &&& r->Ok_0.spec_nodes().len() == 1
                    &&& r->Ok_0.spec_num_cpus() == num_cpus
                    &&& !r->Ok_0.spec_numa_available()
                },
            },
    {
        match found {
            Some(nodes) => Ok(Self::from_nodes(nodes)),
            None => Ok(Self::single_node_fallback(num_cpus, total_memory, free_memory)),
        }
    }

    /// The number of nodes.
    pub fn num_nodes(&self) -> (n: u32)
        ensures
            n == self.spec_num_nodes(),
    {
        self.num_nodes
    }

    /// The number of CPUs.
    pub fn num_cpus(&self) -> (n: u32)
        ensures
            n == self.spec_num_cpus(),
    {
        self.num_cpus
    }

    /// Whether the machine has NUMA.
    pub fn is_numa_available(&self) -> (r: bool)
        ensures
            r == self.spec_numa_available(),
    {
        self.numa_available
    }

    /// The place of the first node with the number.
    fn find(&self, node_id: u32) -> (r: Option<usize>)
        ensures
            match r {
                Some(i) => {
                    &&& i < self.spec_nodes().len()
                    &&& self.spec_nodes()[i as int].node_id == node_id
                    &&& forall|j: int| 0 <= j < i ==> (#[trigger] self.spec_nodes()[j]).node_id != node_id
                },
                None => forall|j: int|
                    0 <= j < self.spec_nodes().len() ==> (#[trigger] self.spec_nodes()[j]).node_id != node_id,
            },
    {
        let mut i: usize = 0;
        while i < self.nodes.len()
            invariant
                i <= self.nodes.len(),
                forall|j: int| 0 <= j < i ==> (#[trigger] self.nodes@[j]).node_id != node_id,
            decreases self.nodes.len() - i,
        {
            if self.nodes[i].node_id == node_id {
                return Some(i);
            }
            i = i + 1;
        }
        None
    }

    /// The first node with the number.
    pub fn get_node(&self, node_id: u32) -> (r: Option<&NumaNode>)
        ensures
            match r {
                Some(node) => node.node_id == node_id && self.spec_nodes().contains(*node),
                None => forall|j: int|
                    0 <= j < self.spec_nodes().len() ==> (#[trigger] self.spec_nodes()[j]).node_id != node_id,
            },
    {
        match self.find(node_id) {
            Some(i) => {
                assert(self.spec_nodes()[i as int] == self.nodes@[i as int]);
                Some(&self.nodes[i])
            },
            None => None,
        }
    }

    /// The nodes.
    pub fn nodes(&self) -> (r: &Vec<NumaNode>)
        ensures
            r@ == self.spec_nodes(),
    {
        &self.nodes
    }

    /// The CPUs of the first node with the number.
    pub fn cpus_for_node(&self, node_id: u32) -> (r: Option<&Vec<u32>>)
        ensures
            match r {
                Some(cpus) => exists|j: int|
                    0 <= j < self.spec_nodes().len() && (#[trigger] self.spec_nodes()[j]).node_id == node_id
                        && self.spec_nodes()[j].cpu_cores == *cpus,
                None => forall|j: int|
                    0 <= j < self.spec_nodes().len() ==> (#[trigger] self.spec_nodes()[j]).node_id != node_id,
            },
    {
        match self.find(node_id) {
            Some(i) => Some(&self.nodes[i].cpu_cores),
            None => None,
        }
    }

    /// The number of the first node that holds the CPU.
    pub fn node_for_cpu(&self, cpu: u32) -> (r: Option<u32>)
        ensures
            match r {
                Some(id) => exists|j: int|
                    0 <= j < self.spec_nodes().len() && (#[trigger] self.spec_nodes()[j]).node_id == id
                        && self.spec_nodes()[j].cpu_cores@.contains(cpu) && forall|l: int|
                        0 <= l < j ==> !(#[trigger] self.spec_nodes()[l]).cpu_cores@.contains(cpu),
                None => forall|j: int|
                    0 <= j < self.spec_nodes().len() ==> !(#[trigger] self.spec_nodes()[j]).cpu_cores@.contains(
                        cpu,
                    ),
            },
    {
        let mut i: usize = 0;
        while i < self.nodes.len()
            invariant
                i <= self.nodes.len(),
                forall|j: int| 0 <= j < i ==> !(#[trigger] self.nodes@[j]).cpu_cores@.contains(cpu),
            decreases self.nodes.len() - i,
        {
            let cores = &self.nodes[i].cpu_cores;
            let mut k: usize = 0;
            while k < cores.len()
                invariant
                    k <= cores.len(),
                    i < self.nodes.len(),
                    cores == &self.nodes@[i as int].cpu_cores,
                    forall|j: int| 0 <= j < i ==> !(#[trigger] self.nodes@[j]).cpu_cores@.contains(cpu),
                    forall|l: int| 0 <= l < k ==> cores@[l] != cpu,
                decreases cores.len() - k,
            {
                if cores[k] == cpu {
                    proof {
                        let here = self.spec_nodes()[i as int];
                        assert(here.cpu_cores@[k as int] == cpu);
                        assert(here.cpu_cores@.contains(cpu));
                        assert forall|l: int| 0 <= l < i implies !(#[trigger] self.spec_nodes()[l]).cpu_cores@.contains(
                            cpu,
                        ) by {
                            assert(!self.nodes@[l].cpu_cores@.contains(cpu));
                        }
                    }
                    return Some(self.nodes[i].node_id);
                }
                k = k + 1;
            }
            i = i + 1;
        }
        None
    }

    /// The number of the node with the most free memory, the last of them
    /// where several have as much; none for a topology without nodes.
    pub fn node_with_most_free_memory(&self) -> (r: Option<u32>)
        ensures
            r == if self.spec_nodes().len() == 0 {
                None::<u32>
            } else {
                Some(self.spec_nodes()[richest(self.spec_nodes())].node_id)
            },
    {
        if self.nodes.len() == 0 {
            return None;
        }
        let mut best: usize = 0;
        let mut i: usize = 1;
        while i < self.nodes.len()
            invariant
                1 <= i <= self.nodes.len(),
                best < i,
                best == richest(self.nodes@.take(i as int)),
            decreases self.nodes.len() - i,
        {
            proof {
                assert(self.nodes@.take(i + 1).drop_last() =~= self.nodes@.take(i as int));
                assert(self.nodes@.take(i as int)[best as int] == self.nodes@[best as int]);
            }
            if self.nodes[i].free_memory >= self.nodes[best].free_memory {
                best = i;
            }
            i = i + 1;
        }
        proof {
            assert(self.nodes@.take(i as int) =~= self.nodes@);
        }
        Some(self.nodes[best].node_id)
    }

    /// All memory of the machine in bytes, cut to the range of `u64`.
    pub fn total_memory(&self) -> (n: u64)
        ensures
            n == sum_cut(self.spec_nodes().map_values(|x: NumaNode| x.total_memory)),
    {
        let ghost all = self.nodes@.map_values(|x: NumaNode| x.total_memory);
        let mut n: u64 = 0;
        let mut i: usize = 0;
        while i < self.nodes.len()
            invariant
                i <= self.nodes.len(),
                all == self.nodes@.map_values(|x: NumaNode| x.total_memory),
                n == sum_cut(all.take(i as int)),
            decreases self.nodes.len() - i,
        {
            proof {
                assert(all.take(i + 1).drop_last() =~= all.take(i as int));
            }
            let m = self.nodes[i].total_memory;
            n = if m > u64::MAX - n {
                u64::MAX
            } else {
                n + m
            };
            i = i + 1;
        }
        proof {
            assert(all.take(self.nodes.len() as int) =~= all);
        }
        n
    }

    /// The free memory of the machine in bytes, cut to the range of
    /// `u64`.
    pub fn total_free_memory(&self) -> (n: u64)
        ensures
            n == sum_cut(self.spec_nodes().map_values(|x: NumaNode| x.free_memory)),
    {
        let ghost all = self.nodes@.map_values(|x: NumaNode| x.free_memory);
        let mut n: u64 = 0;
        let mut i: usize = 0;
        while i < self.nodes.len()
            invariant
                i <= self.nodes.len(),
                all == self.nodes@.map_values(|x: NumaNode| x.free_memory),
                n == sum_cut(all.take(i as int)),
            decreases self.nodes.len() - i,
        {
            proof {
                assert(all.take(i + 1).drop_last() =~= all.take(i as int));
            }
            let m = self.nodes[i].free_memory;
            n = if m > u64::MAX - n {
                u64::MAX
            } else {
                n + m
            };
            i = i + 1;
        }
        proof {
            assert(all.take(self.nodes.len() as int) =~= all);
        }
        n
    }
}

} // verus!
