//! Selection logic of the viewer: wrap-around cursor movement over a list,
//! and the display width of each table column.
use vstd::prelude::*;

verus! {

/// The selection after moving down one step: from nothing to the first
/// item; from the last item (or past it) back to the first; otherwise one
/// further.
pub fn next_index(selected: Option<usize>, len: usize) -> (r: usize)
    requires
        len > 0,
    ensures
        r == match selected {
            Option::Some(i) => if i >= len - 1 {
                0usize
            } else {
                (i + 1) as usize
            },
            Option::None => 0usize,
        },
{
    match selected {
        Some(i) => {
            if i >= len - 1 {
                0
            } else {
                i + 1
            }
        },
        None => 0,
    }
}

/// The selection after moving up one step: from nothing to the first item;
/// from the first item to the last; otherwise one back.
pub fn previous_index(selected: Option<usize>, len: usize) -> (r: usize)
    requires
        len > 0,
    ensures
        r == match selected {
            Option::Some(i) => if i == 0 {
                (len - 1) as usize
            } else {
                (i - 1) as usize
            },
            Option::None => 0usize,
        },
{
    match selected {
        Some(i) => {
            if i == 0 {
                len - 1
            } else {
                i - 1
            }
        },
        None => 0,
    }
}

/// The longest cell of column `i` among the rows at `j..`.
pub open spec fn rows_col_max(rows: Seq<Seq<Seq<char>>>, i: int, j: int) -> nat
    decreases rows.len() - j,
{
    if j < 0 || j >= rows.len() {
        0
    } else {
        let rest = rows_col_max(rows, i, j + 1);
        if rows[j][i].len() > rest {
            rows[j][i].len()
        } else {
            rest
        }
    }
}

/// The display width of column `i`: its header name or its longest cell,
/// whichever is longer.
pub open spec fn spec_col_width(header: Seq<Seq<char>>, rows: Seq<Seq<Seq<char>>>, i: int) -> nat {
    let cells = rows_col_max(rows, i, 0);
    if header[i].len() > cells {
        header[i].len()
    } else {
        cells
    }
}

/// The display width of every column of a table.
pub fn col_widths(header: &Vec<&'static str>, rows: &Vec<Vec<String>>) -> (r: Vec<usize>)
    requires
        forall|j: int|
            0 <= j < rows@.len() ==> (#[trigger] rows@[j])@.len() == header@.len(),
    ensures
        r@.len() == header@.len(),
        forall|i: int|
            0 <= i < header@.len() ==> r@[i] == spec_col_width(
                header.deep_view(),
                rows.deep_view(),
                i,
            ),
{
    let ghost hv = header.deep_view();
    let ghost rv = rows.deep_view();
    let mut r: Vec<usize> = Vec::new();
    let mut i: usize = 0;
    while i < header.len()
        invariant
            i <= header@.len(),
            hv == header.deep_view(),
            rv == rows.deep_view(),
            rv.len() == rows@.len(),
            forall|j: int| 0 <= j < rows@.len() ==> (#[trigger] rows@[j])@.len() == header@.len(),
            r@.len() == i,
            forall|k: int| 0 <= k < i ==> r@[k] == spec_col_width(hv, rv, k),
        decreases header@.len() - i,
    {
        let mut w: usize = header[i].unicode_len();
        let mut j: usize = rows.len();
        while j > 0
            invariant
                j <= rows@.len(),
                i < header@.len(),
                hv == header.deep_view(),
                rv == rows.deep_view(),
                rv.len() == rows@.len(),
                forall|m: int|
                    0 <= m < rows@.len() ==> (#[trigger] rows@[m])@.len() == header@.len(),
                w == (if hv[i as int].len() > rows_col_max(rv, i as int, j as int) {
                    hv[i as int].len()
                } else {
                    rows_col_max(rv, i as int, j as int)
                }),
            decreases j,
        {
            j = j - 1;
            let cell_len = rows[j][i].as_str().unicode_len();
            proof {
                assert(rv[j as int][i as int] == rows@[j as int]@[i as int]@);
            }
            if cell_len > w {
                w = cell_len;
            }
        }
        r.push(w);
        i = i + 1;
    }
    r
}

} // verus!
