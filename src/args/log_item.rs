//! The `-d` option: which items QEMU logs.
use crate::args::QemuArgument;
use crate::text::{pair, strings_view};
use vstd::prelude::*;

verus! {

/// One item that QEMU can log.
#[derive(Debug, Clone, Eq, PartialEq, Hash)]
pub enum LogItem {
    OutAsm,
    InAsm,
    Op,
    OpOpt,
    OpInd,
    Int,
    Exec,
    Cpu,
    Fpu,
    Mmu,
    Pcall,
    CpuReset,
    Unimp,
    GuestErrors,
    Page,
    Nochain,
    Plugin,
    Strace,
    Tid,
    /// The trace events that match a pattern, passed on as it is written.
    Trace(String),
    Help,
}

impl LogItem {
    /// The item's name in the value of `-d`.
    pub open spec fn spec_name(self) -> Seq<char> {
        match self {
            LogItem::OutAsm => "out_asm"@,
            LogItem::InAsm => "in_asm"@,
            LogItem::Op => "op"@,
            LogItem::OpOpt => "op_opt"@,
            LogItem::OpInd => "op_ind"@,
            LogItem::Int => "int"@,
            LogItem::Exec => "exec"@,
            LogItem::Cpu => "cpu"@,
            LogItem::Fpu => "fpu"@,
            LogItem::Mmu => "mmu"@,
            LogItem::Pcall => "pcall"@,
            LogItem::CpuReset => "cpu_reset"@,
            LogItem::Unimp => "unimp"@,
            LogItem::GuestErrors => "guest_errors"@,
            LogItem::Page => "page"@,
            LogItem::Nochain => "nochain"@,
            LogItem::Plugin => "plugin"@,
            LogItem::Strace => "strace"@,
            LogItem::Tid => "tid"@,
            LogItem::Trace(pattern) => "trace:"@ + pattern@,
            LogItem::Help => "help"@,
        }
    }

    fn format(&self) -> (r: String)
        ensures
            r@ == self.spec_name(),
    {
        match self {
            LogItem::OutAsm => String::from_str("out_asm"),
            LogItem::InAsm => String::from_str("in_asm"),
            LogItem::Op => String::from_str("op"),
            LogItem::OpOpt => String::from_str("op_opt"),
            LogItem::OpInd => String::from_str("op_ind"),
            LogItem::Int => String::from_str("int"),
            LogItem::Exec => String::from_str("exec"),
            LogItem::Cpu => String::from_str("cpu"),
            LogItem::Fpu => String::from_str("fpu"),
            LogItem::Mmu => String::from_str("mmu"),
            LogItem::Pcall => String::from_str("pcall"),
            LogItem::CpuReset => String::from_str("cpu_reset"),
            LogItem::Unimp => String::from_str("unimp"),
            LogItem::GuestErrors => String::from_str("guest_errors"),
            LogItem::Page => String::from_str("page"),
            LogItem::Nochain => String::from_str("nochain"),
            LogItem::Plugin => String::from_str("plugin"),
            LogItem::Strace => String::from_str("strace"),
            LogItem::Tid => String::from_str("tid"),
            LogItem::Trace(pattern) => {
                let mut s = String::from_str("trace:");
                s.append(pattern.as_str());
                s
            },
            LogItem::Help => String::from_str("help"),
        }
    }
}

/// The names of `items`, in their order, separated by commas; empty for no items.
pub open spec fn join_names(items: Seq<LogItem>) -> Seq<char>
    decreases items.len(),
{
    if items.len() == 0 {
        Seq::empty()
    } else if items.len() == 1 {
        items[0].spec_name()
    } else {
        join_names(items.drop_last()) + seq![','] + items.last().spec_name()
    }
}

/// The items of one `-d` option, in the order in which they were given.
#[derive(Debug, Clone, Eq, PartialEq, Hash)]
pub struct LogItems {
    pub items: Vec<LogItem>,
}

impl From<Vec<LogItem>> for LogItems {
    fn from(value: Vec<LogItem>) -> (r: Self)
        ensures
            r.items@ == value@,
    {
        LogItems { items: value }
    }
}

impl vstd::std_specs::convert::FromSpecImpl<Vec<LogItem>> for LogItems {
    open spec fn obeys_from_spec() -> bool {
        true
    }

    open spec fn from_spec(v: Vec<LogItem>) -> LogItems {
        LogItems { items: v }
    }
}

impl QemuArgument for LogItems {
    open spec fn tokens(&self) -> Seq<Seq<char>> {
        seq!["-d"@, join_names(self.items@)]
    }

    fn format(&self) -> (r: Vec<String>) {
        let mut arg = String::new();
        let n = self.items.len();
        let mut i: usize = 0;
        while i < n
            invariant
                n == self.items@.len(),
                i <= n,
                arg@ == join_names(self.items@.subrange(0, i as int)),
            decreases n - i,
        {
            let name = self.items[i].format();
            if i == 0 {
                arg.append(name.as_str());
            } else {
                arg.append(",");
                arg.append(name.as_str());
            }
            proof {
                reveal_strlit(",");
                let next = self.items@.subrange(0, i + 1);
                assert(next.drop_last() =~= self.items@.subrange(0, i as int));
                assert(next.last() == self.items@[i as int]);
                assert(arg@ =~= join_names(next));
            }
            i = i + 1;
        }
        assert(self.items@.subrange(0, n as int) =~= self.items@);
        pair(String::from_str("-d"), arg)
    }
}

/// Rendering keeps the order of the items: the value for `a` followed by `b`
/// is the value for `a`, a comma, then the value for `b`.
pub proof fn lemma_join_names_concat(a: Seq<LogItem>, b: Seq<LogItem>)
    requires
        a.len() > 0,
        b.len() > 0,
    ensures
        join_names(a + b) == join_names(a) + seq![','] + join_names(b),
    decreases b.len(),
{
    if b.len() == 1 {
        assert((a + b).drop_last() =~= a);
        assert(join_names(a + b) =~= join_names(a) + seq![','] + join_names(b));
    } else {
        let b1 = b.drop_last();
        lemma_join_names_concat(a, b1);
        assert((a + b).drop_last() =~= a + b1);
        assert(join_names(a + b) =~= join_names(a) + seq![','] + join_names(b));
    }
}

/// Each item stands in the value by its name, in the order given, and the
/// pattern of a trace item is copied as it is.
pub proof fn lemma_join_names_order(items: Seq<LogItem>, pattern: String)
    ensures
        items.len() > 0 ==> join_names(items.push(LogItem::Trace(pattern))) == join_names(items)
            + seq![','] + "trace:"@ + pattern@,
        join_names(seq![LogItem::Trace(pattern)]) == "trace:"@ + pattern@,
{
    if items.len() > 0 {
        assert(items.push(LogItem::Trace(pattern)).drop_last() =~= items);
    }
}

} // verus!
