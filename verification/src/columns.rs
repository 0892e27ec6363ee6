//! Columns of the tables in which readings are shown.

use vstd::prelude::*;
use vstd::string::*;
use vstd::utf8::encode_utf8_decode_utf8;
use ratatui::layout::Constraint;

verus! {

/// `ratatui::layout::Constraint`: how much room a column is given. A column
/// carries it along; nothing here looks inside.
#[verifier::external_type_specification]
#[verifier::external_body]
pub struct ExConstraint(Constraint);

/// A column of a table: its header, the room it is given, whether it is
/// shown, and the function that renders a cell of it.
pub struct Column<F> {
    /// The text above the column, by which the column is found.
    pub header: &'static str,
    /// The room that the column is given.
    pub constraint: Constraint,
    /// Whether the column is shown.
    pub visible: bool,
    /// Renders a cell of the column.
    pub value_fn: F,
}

/// The columns of a table, in the order in which they are laid out, found by
/// their headers.
///
/// Where two columns share a header, the header stands for the later one.
pub struct Columns<F> {
    columns: Vec<Column<F>>,
}

/// The place of the column that `header` stands for among the first `upto`
/// of `columns`: the last one of them with that header.
pub open spec fn index_of_header<F>(columns: Seq<Column<F>>, header: Seq<char>, upto: int) -> Option<
    int,
>
    decreases upto,
{
    if upto <= 0 {
        None
    } else if columns[upto - 1].header@ == header {
        Some(upto - 1)
    } else {
        index_of_header(columns, header, upto - 1)
    }
}

/// The column that a header stands for is one of the columns looked at, and
/// bears that header.
pub proof fn lemma_index_of_header_is_found<F>(columns: Seq<Column<F>>, header: Seq<char>, upto: int)
    requires
        upto <= columns.len(),
    ensures
        index_of_header(columns, header, upto) matches Some(i) ==> 0 <= i < upto
            && columns[i].header@ == header,
        index_of_header(columns, header, upto) is None ==> forall|i: int|
            0 <= i < upto ==> (#[trigger] columns[i]).header@ != header,
    decreases upto,
{
    if upto > 0 {
        lemma_index_of_header_is_found(columns, header, upto - 1);
    }
}

/// The number of headers among the first `upto` columns that stand for
/// themselves, that is, whose header no later column bears.
pub open spec fn count_own_headers<F>(columns: Seq<Column<F>>, upto: int) -> nat
    decreases upto,
{
    if upto <= 0 {
        0
    } else if index_of_header(columns, columns[upto - 1].header@, columns.len() as int) == Some(
        upto - 1,
    ) {
        count_own_headers(columns, upto - 1) + 1
    } else {
        count_own_headers(columns, upto - 1)
    }
}

/// The columns among the first `upto` that are shown, in their order.
pub open spec fn visible_among<F>(columns: Seq<Column<F>>, upto: int) -> Seq<Column<F>>
    decreases upto,
{
    if upto <= 0 {
        Seq::empty()
    } else if columns[upto - 1].visible {
        visible_among(columns, upto - 1).push(columns[upto - 1])
    } else {
        visible_among(columns, upto - 1)
    }
}

/// Whether two strings hold the same text.
fn same_text(a: &str, b: &str) -> (same: bool)
    ensures
        same == (a@ == b@),
{
    let left = a.as_bytes();
    let right = b.as_bytes();
    proof {
        encode_utf8_decode_utf8(a@);
        encode_utf8_decode_utf8(b@);
    }
    if left.len() != right.len() {
        return false;
    }
    let mut at: usize = 0;
    while at < left.len()
        invariant
            at <= left.len(),
            left@.len() == right@.len(),
            left@ == a.spec_bytes(),
            right@ == b.spec_bytes(),
            vstd::utf8::decode_utf8(left@) == a@,
            vstd::utf8::decode_utf8(right@) == b@,
            left@.take(at as int) == right@.take(at as int),
        decreases left.len() - at,
    {
        if left[at] != right[at] {
            return false;
        }
        at = at + 1;
    }
    assert(left@.take(at as int) == left@);
    assert(right@.take(at as int) == right@);
    true
}

impl<F> View for Columns<F> {
    type V = Seq<Column<F>>;

    closed spec fn view(&self) -> Seq<Column<F>> {
        self.columns@
    }
}

impl<F> Columns<F> {
    /// The table made of `columns`, in their order.
    pub fn new(columns: Vec<Column<F>>) -> (table: Columns<F>)
        ensures
            table@ == columns@,
    {
        Columns { columns }
    }

    /// The place of the column that `header` stands for: the last column
    /// with that header. `None` where no column has it.
    pub fn header_index(&self, header: &str) -> (index: Option<usize>)
        ensures
            match index {
                Some(i) => i < self@.len() && index_of_header(
                    self@,
                    header@,
                    self@.len() as int,
                ) == Some(i as int),
                None => index_of_header(self@, header@, self@.len() as int) is None,
            },
    {
        let mut upto: usize = self.columns.len();
        while upto > 0
            invariant
                upto <= self.columns.len(),
                index_of_header(self@, header@, self@.len() as int) == index_of_header(
                    self@,
                    header@,
                    upto as int,
                ),
            decreases upto,
        {
            if same_text(self.columns[upto - 1].header, header) {
                return Some(upto - 1);
            }
            upto = upto - 1;
        }
        None
    }

    /// The number of headers that the table can be asked for: columns that
    /// share a header count once.
    pub fn header_count(&self) -> (count: usize)
        ensures
            count == count_own_headers(self@, self@.len() as int),
    {
        let mut count: usize = 0;
        let mut at: usize = 0;
        while at < self.columns.len()
            invariant
                at <= self.columns.len(),
                count <= at,
                count == count_own_headers(self@, at as int),
            decreases self.columns.len() - at,
        {
            match self.header_index(self.columns[at].header) {
                Some(index) => {
                    if index == at {
                        count = count + 1;
                    }
                },
                None => {},
            }
            at = at + 1;
        }
        count
    }

    /// Shows or hides the column that `header` stands for and returns
    /// `true`. Where no column has that header nothing changes, and the
    /// result is `false`.
    pub fn update_visibility(&mut self, header: &str, visible: bool) -> (updated: bool)
        ensures
            final(self)@.len() == old(self)@.len(),
            match index_of_header(old(self)@, header@, old(self)@.len() as int) {
                Some(i) => {
                    &&& updated
                    &&& final(self)@ == old(self)@.update(
                        i,
                        Column { visible, ..old(self)@[i] },
                    )
                },
                None => !updated && final(self)@ == old(self)@,
            },
    {
        proof {
            lemma_index_of_header_is_found(self@, header@, self@.len() as int);
        }
        match self.header_index(header) {
            Some(index) => {
                self.columns[index].visible = visible;
                true
            },
            None => false,
        }
    }

    /// The columns that are shown, in the order of the table.
    pub fn visible_columns(&self) -> (shown: Vec<&Column<F>>)
        ensures
            shown@.len() == visible_among(self@, self@.len() as int).len(),
            forall|i: int|
                0 <= i < shown@.len() ==> *(#[trigger] shown@[i]) == visible_among(
                    self@,
                    self@.len() as int,
                )[i],
    {
        let mut shown: Vec<&Column<F>> = Vec::new();
        let mut at: usize = 0;
        while at < self.columns.len()
            invariant
                at <= self.columns.len(),
                shown@.len() == visible_among(self@, at as int).len(),
                forall|i: int|
                    0 <= i < shown@.len() ==> *(#[trigger] shown@[i]) == visible_among(
                        self@,
                        at as int,
                    )[i],
            decreases self.columns.len() - at,
        {
            if self.columns[at].visible {
                shown.push(&self.columns[at]);
            }
            at = at + 1;
        }
        shown
    }

    /// All columns, shown or not, in the order of the table.
    pub fn all_columns(&self) -> (columns: &[Column<F>])
        ensures
            columns@ == self@,
    {
        self.columns.as_slice()
    }
}

/// The names of the rows of the detailed memory view, in the order in which
/// they are shown.
pub open spec fn memory_detail_metric_names() -> Seq<Seq<char>> {
    seq![
        "Total Memory"@,
        "Free Memory"@,
        "Available Memory"@,
        "Buffers"@,
        "Cached"@,
        "Active"@,
        "Inactive"@,
        "Active (anon)"@,
        "Inactive (anon)"@,
        "Active (file)"@,
        "Inactive (file)"@,
        "Unevictable"@,
        "Mlocked"@,
        "Anonymous Pages"@,
        "Mapped"@,
        "Slab"@,
        "SReclaimable"@,
        "SUnreclaim"@,
        "Kernel Stack"@,
        "Page Tables"@,
        "Dirty"@,
        "Writeback"@,
        "NFS Unstable"@,
        "Bounce"@,
        "Writeback Tmp"@,
        "Commit Limit"@,
        "Committed AS"@,
        "Swap Total"@,
        "Swap Free"@,
        "Swap Cached"@,
        "Swap Pages In"@,
        "Swap Pages Out"@,
        "Page Faults"@,
        "Major Page Faults"@,
    ]
}

/// The metrics that the detailed memory view shows, one to a row, in the
/// order of the rows.
pub fn get_memory_detail_metrics() -> (metrics: Vec<&'static str>)
    ensures
        metrics@.len() == memory_detail_metric_names().len(),
        forall|i: int|
            0 <= i < metrics@.len() ==> (#[trigger] metrics@[i])@ == memory_detail_metric_names()[i],
{
    vec![
        // Basic memory information
        "Total Memory",
        "Free Memory",
        "Available Memory",
        "Buffers",
        "Cached",
        // Memory states
        "Active",
        "Inactive",
        "Active (anon)",
        "Inactive (anon)",
        "Active (file)",
        "Inactive (file)",
        "Unevictable",
        "Mlocked",
        // Memory types
        "Anonymous Pages",
        "Mapped",
        "Slab",
        "SReclaimable",
        "SUnreclaim",
        "Kernel Stack",
        "Page Tables",
        // I/O related
        "Dirty",
        "Writeback",
        "NFS Unstable",
        "Bounce",
        "Writeback Tmp",
        // Commit
        "Commit Limit",
        "Committed AS",
        // Swap information
        "Swap Total",
        "Swap Free",
        "Swap Cached",
        "Swap Pages In",
        "Swap Pages Out",
        // Page faults
        "Page Faults",
        "Major Page Faults",
    ]
}

} // verus!
