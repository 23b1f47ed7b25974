use crate::model::datetime::{Date, DateTime};
use vstd::prelude::*;
use vstd::string::*;

verus! {

/// The value of one column of a database row.
#[derive(Clone, Debug, PartialEq)]
pub enum Cell {
    Null,
    Text(String),
    Int(i32),
    Bool(bool),
    /// A double-precision number, as its bit pattern.
    Double(u64),
    TextArray(Vec<String>),
    Timestamp(DateTime),
    Date(Date),
    /// A value of a type that no record reads; the text names the type.
    Other(String),
}

/// The mathematical value of [`Cell`].
pub ghost enum CellView {
    Null,
    Text(Seq<char>),
    Int(i32),
    Bool(bool),
    Double(u64),
    TextArray(Seq<Seq<char>>),
    Timestamp(DateTime),
    Date(Date),
    Other(Seq<char>),
}

impl View for Cell {
    type V = CellView;

    open spec fn view(&self) -> CellView {
        match self {
            Cell::Null => CellView::Null,
            Cell::Text(text) => CellView::Text(text@),
            Cell::Int(n) => CellView::Int(*n),
            Cell::Bool(b) => CellView::Bool(*b),
            Cell::Double(bits) => CellView::Double(*bits),
            Cell::TextArray(texts) => CellView::TextArray(texts.deep_view()),
            Cell::Timestamp(at) => CellView::Timestamp(*at),
            Cell::Date(day) => CellView::Date(*day),
            Cell::Other(kind) => CellView::Other(kind@),
        }
    }
}

/// A column of a row: its name and its value.
#[derive(Clone, Debug, PartialEq)]
pub struct Column {
    pub name: String,
    pub value: Cell,
}

/// The mathematical value of [`Column`].
pub ghost struct ColumnView {
    pub name: Seq<char>,
    pub value: CellView,
}

impl View for Column {
    type V = ColumnView;

    open spec fn view(&self) -> ColumnView {
        ColumnView { name: self.name@, value: self.value@ }
    }
}

impl DeepView for Column {
    type V = ColumnView;

    open spec fn deep_view(&self) -> ColumnView {
        self@
    }
}

/// A row of a query's result: its columns, in the order of the result.
#[derive(Clone, Debug, PartialEq)]
pub struct Row {
    pub columns: Vec<Column>,
}

impl View for Row {
    type V = Seq<ColumnView>;

    open spec fn view(&self) -> Seq<ColumnView> {
        self.columns.deep_view()
    }
}

/// Why a row could not be made into a record. Either way the text is the name
/// of the column.
#[derive(Clone, Debug, PartialEq)]
pub enum MappingError {
    /// The row has no column of that name.
    ColumnNotFound(String),
    /// The column's value is not of the type that the record's field takes.
    ColumnDecode(String),
}

/// The mathematical value of [`MappingError`].
pub ghost enum MappingErrorView {
    ColumnNotFound(Seq<char>),
    ColumnDecode(Seq<char>),
}

impl View for MappingError {
    type V = MappingErrorView;

    open spec fn view(&self) -> MappingErrorView {
        match self {
            MappingError::ColumnNotFound(name) => MappingErrorView::ColumnNotFound(name@),
            MappingError::ColumnDecode(name) => MappingErrorView::ColumnDecode(name@),
        }
    }
}

/// The words of a mapping error: what went wrong, and with which column.
pub open spec fn mapping_message(error: MappingErrorView) -> Seq<char> {
    match error {
        MappingErrorView::ColumnNotFound(name) => "no column found for name: "@ + name,
        MappingErrorView::ColumnDecode(name) => "error occurred while decoding column "@ + name,
    }
}

impl MappingError {
    /// The error in words.
    pub fn message(&self) -> (r: String)
        ensures
            r@ == mapping_message(self@),
    {
        match self {
            MappingError::ColumnNotFound(name) => {
                let mut words = String::from_str("no column found for name: ");
                words.append(name.as_str());
                words
            },
            MappingError::ColumnDecode(name) => {
                let mut words = String::from_str("error occurred while decoding column ");
                words.append(name.as_str());
                words
            },
        }
    }
}

/// The value of the column named `name`. Where several columns bear the name,
/// the last of them counts.
pub open spec fn column_value(row: Seq<ColumnView>, name: Seq<char>) -> Option<CellView>
    decreases row.len(),
{
    if row.len() == 0 {
        None
    } else if row.last().name == name {
        Some(row.last().value)
    } else {
        column_value(row.drop_last(), name)
    }
}

/// Where the search of [`column_value`] ends: at the column named `name` after
/// which no column bears the name, and at nothing when no column bears it.
pub proof fn lemma_column_value(row: Seq<ColumnView>, name: Seq<char>, from: int)
    requires
        -1 <= from < row.len(),
        forall|k: int| from < k < row.len() ==> row[k].name != name,
    ensures
        from >= 0 && row[from].name == name ==> column_value(row, name) == Some(row[from].value),
        from == -1 ==> column_value(row, name) is None,
    decreases row.len(),
{
    if row.len() > 0 && from < row.len() - 1 {
        let rest = row.drop_last();
        assert forall|k: int| from < k < rest.len() implies rest[k].name != name by {
            assert(rest[k] == row[k]);
        }
        lemma_column_value(rest, name, from);
        if from >= 0 {
            assert(rest[from] == row[from]);
        }
    }
}

/// What a field that must hold a text takes from the column `name`.
pub open spec fn text_at(row: Seq<ColumnView>, name: Seq<char>) -> Result<
    Seq<char>,
    MappingErrorView,
> {
    match column_value(row, name) {
        None => Err(MappingErrorView::ColumnNotFound(name)),
        Some(CellView::Text(text)) => Ok(text),
        Some(_) => Err(MappingErrorView::ColumnDecode(name)),
    }
}

/// What a field that may hold a text takes from the column `name`: nothing
/// from a null.
pub open spec fn optional_text_at(row: Seq<ColumnView>, name: Seq<char>) -> Result<
    Option<Seq<char>>,
    MappingErrorView,
> {
    match column_value(row, name) {
        None => Err(MappingErrorView::ColumnNotFound(name)),
        Some(CellView::Null) => Ok(None),
        Some(CellView::Text(text)) => Ok(Some(text)),
        Some(_) => Err(MappingErrorView::ColumnDecode(name)),
    }
}

/// What a field that must hold an integer takes from the column `name`.
pub open spec fn int_at(row: Seq<ColumnView>, name: Seq<char>) -> Result<i32, MappingErrorView> {
    match column_value(row, name) {
        None => Err(MappingErrorView::ColumnNotFound(name)),
        Some(CellView::Int(n)) => Ok(n),
        Some(_) => Err(MappingErrorView::ColumnDecode(name)),
    }
}

/// What a field that must hold a truth value takes from the column `name`.
pub open spec fn bool_at(row: Seq<ColumnView>, name: Seq<char>) -> Result<bool, MappingErrorView> {
    match column_value(row, name) {
        None => Err(MappingErrorView::ColumnNotFound(name)),
        Some(CellView::Bool(b)) => Ok(b),
        Some(_) => Err(MappingErrorView::ColumnDecode(name)),
    }
}

/// What a field that must hold a double-precision number takes from the
/// column `name`: the number's bit pattern.
pub open spec fn double_at(row: Seq<ColumnView>, name: Seq<char>) -> Result<
    u64,
    MappingErrorView,
> {
    match column_value(row, name) {
        None => Err(MappingErrorView::ColumnNotFound(name)),
        Some(CellView::Double(bits)) => Ok(bits),
        Some(_) => Err(MappingErrorView::ColumnDecode(name)),
    }
}

/// What a field that must hold a list of texts takes from the column `name`.
pub open spec fn text_array_at(row: Seq<ColumnView>, name: Seq<char>) -> Result<
    Seq<Seq<char>>,
    MappingErrorView,
> {
    match column_value(row, name) {
        None => Err(MappingErrorView::ColumnNotFound(name)),
        Some(CellView::TextArray(texts)) => Ok(texts),
        Some(_) => Err(MappingErrorView::ColumnDecode(name)),
    }
}

/// What a field that may hold a list of texts takes from the column `name`:
/// nothing from a null.
pub open spec fn optional_text_array_at(row: Seq<ColumnView>, name: Seq<char>) -> Result<
    Option<Seq<Seq<char>>>,
    MappingErrorView,
> {
    match column_value(row, name) {
        None => Err(MappingErrorView::ColumnNotFound(name)),
        Some(CellView::Null) => Ok(None),
        Some(CellView::TextArray(texts)) => Ok(Some(texts)),
        Some(_) => Err(MappingErrorView::ColumnDecode(name)),
    }
}

/// What a field that may hold a date and time takes from the column `name`:
/// nothing from a null.
pub open spec fn optional_timestamp_at(row: Seq<ColumnView>, name: Seq<char>) -> Result<
    Option<DateTime>,
    MappingErrorView,
> {
    match column_value(row, name) {
        None => Err(MappingErrorView::ColumnNotFound(name)),
        Some(CellView::Null) => Ok(None),
        Some(CellView::Timestamp(at)) => Ok(Some(at)),
        Some(_) => Err(MappingErrorView::ColumnDecode(name)),
    }
}

/// What a field that must hold a date takes from the column `name`.
pub open spec fn date_at(row: Seq<ColumnView>, name: Seq<char>) -> Result<Date, MappingErrorView> {
    match column_value(row, name) {
        None => Err(MappingErrorView::ColumnNotFound(name)),
        Some(CellView::Date(day)) => Ok(day),
        Some(_) => Err(MappingErrorView::ColumnDecode(name)),
    }
}

impl Row {
    /// Finds the value of the column named `name`.
    pub fn find(&self, name: &str) -> (r: Option<&Cell>)
        ensures
            match r {
                Some(value) => column_value(self@, name@) == Some(value@),
                None => column_value(self@, name@) is None,
            },
    {
        let wanted = String::from_str(name);
        let mut i: usize = self.columns.len();
        while i > 0
            invariant
                i <= self.columns.len(),
                wanted@ == name@,
                forall|k: int| i <= k < self.columns.len() ==> self@[k].name != name@,
            decreases i,
        {
            i -= 1;
            if self.columns[i].name == wanted {
                proof {
                    lemma_column_value(self@, name@, i as int);
                }
                return Some(&self.columns[i].value);
            }
        }
        proof {
            lemma_column_value(self@, name@, -1);
        }
        None
    }

    /// Reads a text from the column `name`.
    pub fn try_get_text(&self, name: &str) -> (r: Result<String, MappingError>)
        ensures
            match r {
                Ok(text) => text_at(self@, name@) == Ok::<Seq<char>, MappingErrorView>(text@),
                Err(error) => text_at(self@, name@) == Err::<Seq<char>, MappingErrorView>(error@),
            },
    {
        match self.find(name) {
            None => Err(MappingError::ColumnNotFound(String::from_str(name))),
            Some(Cell::Text(text)) => Ok(text.clone()),
            Some(_) => Err(MappingError::ColumnDecode(String::from_str(name))),
        }
    }

    /// Reads a text, or the lack of one, from the column `name`.
    pub fn try_get_optional_text(&self, name: &str) -> (r: Result<Option<String>, MappingError>)
        ensures
            match r {
                Ok(text) => optional_text_at(self@, name@) == Ok::<
                    Option<Seq<char>>,
                    MappingErrorView,
                >(text.deep_view()),
                Err(error) => optional_text_at(self@, name@) == Err::<
                    Option<Seq<char>>,
                    MappingErrorView,
                >(error@),
            },
    {
        match self.find(name) {
            None => Err(MappingError::ColumnNotFound(String::from_str(name))),
            Some(Cell::Null) => Ok(None),
            Some(Cell::Text(text)) => Ok(Some(text.clone())),
            Some(_) => Err(MappingError::ColumnDecode(String::from_str(name))),
        }
    }

    /// Reads an integer from the column `name`.
    pub fn try_get_int(&self, name: &str) -> (r: Result<i32, MappingError>)
        ensures
            match r {
                Ok(n) => int_at(self@, name@) == Ok::<i32, MappingErrorView>(n),
                Err(error) => int_at(self@, name@) == Err::<i32, MappingErrorView>(error@),
            },
    {
        match self.find(name) {
            None => Err(MappingError::ColumnNotFound(String::from_str(name))),
            Some(Cell::Int(n)) => Ok(*n),
            Some(_) => Err(MappingError::ColumnDecode(String::from_str(name))),
        }
    }

    /// Reads a truth value from the column `name`.
    pub fn try_get_bool(&self, name: &str) -> (r: Result<bool, MappingError>)
        ensures
            match r {
                Ok(b) => bool_at(self@, name@) == Ok::<bool, MappingErrorView>(b),
                Err(error) => bool_at(self@, name@) == Err::<bool, MappingErrorView>(error@),
            },
    {
        match self.find(name) {
            None => Err(MappingError::ColumnNotFound(String::from_str(name))),
            Some(Cell::Bool(b)) => Ok(*b),
            Some(_) => Err(MappingError::ColumnDecode(String::from_str(name))),
        }
    }

    /// Reads the bit pattern of a double-precision number from the column
    /// `name`.
    pub fn try_get_double(&self, name: &str) -> (r: Result<u64, MappingError>)
        ensures
            match r {
                Ok(bits) => double_at(self@, name@) == Ok::<u64, MappingErrorView>(bits),
                Err(error) => double_at(self@, name@) == Err::<u64, MappingErrorView>(error@),
            },
    {
        match self.find(name) {
            None => Err(MappingError::ColumnNotFound(String::from_str(name))),
            Some(Cell::Double(bits)) => Ok(*bits),
            Some(_) => Err(MappingError::ColumnDecode(String::from_str(name))),
        }
    }

    /// Reads a list of texts from the column `name`.
    pub fn try_get_text_array(&self, name: &str) -> (r: Result<Vec<String>, MappingError>)
        ensures
            match r {
                Ok(texts) => text_array_at(self@, name@) == Ok::<Seq<Seq<char>>, MappingErrorView>(
                    texts.deep_view(),
                ),
                Err(error) => text_array_at(self@, name@) == Err::<
                    Seq<Seq<char>>,
                    MappingErrorView,
                >(error@),
            },
    {
        match self.find(name) {
            None => Err(MappingError::ColumnNotFound(String::from_str(name))),
            Some(Cell::TextArray(texts)) => Ok(copy_texts(texts)),
            Some(_) => Err(MappingError::ColumnDecode(String::from_str(name))),
        }
    }

    /// Reads a list of texts, or the lack of one, from the column `name`.
    pub fn try_get_optional_text_array(&self, name: &str) -> (r: Result<
        Option<Vec<String>>,
        MappingError,
    >)
        ensures
            match r {
                Ok(texts) => optional_text_array_at(self@, name@) == Ok::<
                    Option<Seq<Seq<char>>>,
                    MappingErrorView,
                >(texts.deep_view()),
                Err(error) => optional_text_array_at(self@, name@) == Err::<
                    Option<Seq<Seq<char>>>,
                    MappingErrorView,
                >(error@),
            },
    {
        match self.find(name) {
            None => Err(MappingError::ColumnNotFound(String::from_str(name))),
            Some(Cell::Null) => Ok(None),
            Some(Cell::TextArray(texts)) => Ok(Some(copy_texts(texts))),
            Some(_) => Err(MappingError::ColumnDecode(String::from_str(name))),
        }
    }

    /// Reads a date and time, or the lack of one, from the column `name`.
    pub fn try_get_optional_timestamp(&self, name: &str) -> (r: Result<
        Option<DateTime>,
        MappingError,
    >)
        ensures
            match r {
                Ok(at) => optional_timestamp_at(self@, name@) == Ok::<
                    Option<DateTime>,
                    MappingErrorView,
                >(at),
                Err(error) => optional_timestamp_at(self@, name@) == Err::<
                    Option<DateTime>,
                    MappingErrorView,
                >(error@),
            },
    {
        match self.find(name) {
            None => Err(MappingError::ColumnNotFound(String::from_str(name))),
            Some(Cell::Null) => Ok(None),
            Some(Cell::Timestamp(at)) => Ok(Some(*at)),
            Some(_) => Err(MappingError::ColumnDecode(String::from_str(name))),
        }
    }

    /// Reads a date from the column `name`.
    pub fn try_get_date(&self, name: &str) -> (r: Result<Date, MappingError>)
        ensures
            match r {
                Ok(day) => date_at(self@, name@) == Ok::<Date, MappingErrorView>(day),
                Err(error) => date_at(self@, name@) == Err::<Date, MappingErrorView>(error@),
            },
    {
        match self.find(name) {
            None => Err(MappingError::ColumnNotFound(String::from_str(name))),
            Some(Cell::Date(day)) => Ok(*day),
            Some(_) => Err(MappingError::ColumnDecode(String::from_str(name))),
        }
    }
}

/// Copies a list of texts.
pub fn copy_texts(texts: &Vec<String>) -> (r: Vec<String>)
    ensures
        r.deep_view() == texts.deep_view(),
{
    let mut out: Vec<String> = Vec::new();
    let mut i: usize = 0;
    while i < texts.len()
        invariant
            i <= texts.len(),
            out.len() == i,
            forall|k: int| 0 <= k < i ==> out@[k]@ == texts@[k]@,
        decreases texts.len() - i,
    {
        out.push(texts[i].clone());
        i += 1;
    }
    assert(out.deep_view() =~= texts.deep_view());
    out
}

} // verus!
