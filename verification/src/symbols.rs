//! Symbol tables: a stack of tables, one for each scope that is open, in
//! which names are declared and looked up by position.
//!
//! The administrator of the tables is driven by messages. It handles one
//! message at a time and says what to do next; the loop that receives the
//! messages and sends the answers lives outside this library.

use crate::text::same_text;
use vstd::prelude::*;
use vstd::string::*;

verus! {

/// The type of a symbol.
#[derive(Clone, Copy, Debug, PartialEq, Eq, Structural)]
pub enum SymType {
    Untyped,
}

/// A declared name.
#[derive(Debug)]
pub struct Symbol {
    name: String,
    identifier: i32,
    symbol_type: SymType,
    param_type: SymType,
    ret_type: SymType,
}

/// The symbols of one scope, in the order of their declaration.
#[derive(Debug)]
pub struct Table {
    identifier: i32,
    pub disp: i32,
    symbol_list: Vec<Symbol>,
}

/// The position of the first of the names from the `i`-th on that is
/// `name`, or -1 where there is none.
pub open spec fn position_of(names: Seq<Seq<char>>, name: Seq<char>, i: int) -> int
    decreases names.len() - i,
{
    if i < 0 || i >= names.len() {
        -1
    } else if names[i] == name {
        i
    } else {
        position_of(names, name, i + 1)
    }
}

impl View for Table {
    type V = Seq<Seq<char>>;

    closed spec fn view(&self) -> Seq<Seq<char>> {
        Seq::new(self.symbol_list.len() as nat, |i: int| self.symbol_list[i].name@)
    }
}

impl Table {
    /// A table holds at most as many symbols as a position can count.
    pub open spec fn wf(&self) -> bool {
        self@.len() <= i32::MAX
    }

    /// Whether one more symbol can be declared.
    pub open spec fn has_room(&self) -> bool {
        self@.len() < i32::MAX
    }

    /// The number that the table was made with.
    pub closed spec fn number(&self) -> i32 {
        self.identifier
    }

    /// The displacement of the table: zero when the table is made.
    pub closed spec fn displacement(&self) -> i32 {
        self.disp
    }

    /// An empty table with the given number and no displacement.
    pub fn new(id: i32) -> (table: Table)
        ensures
            table.wf(),
            table@ == Seq::<Seq<char>>::empty(),
            table.number() == id,
            table.displacement() == 0,
    {
        let table = Table { identifier: id, disp: 0, symbol_list: Vec::new() };
        assert(table@ =~= Seq::empty());
        table
    }

    /// The number that the table was made with.
    pub fn identifier(&self) -> (id: i32)
        ensures
            id == self.number(),
    {
        self.identifier
    }

    /// Whether one more symbol can be declared.
    pub fn room_left(&self) -> (r: bool)
        ensures
            r == self.has_room(),
    {
        self.symbol_list.len() < 0x7fff_ffff
    }

    /// The position of the symbol with the given name, or -1 where the
    /// table has none.
    pub fn search_for_name(&self, name: String) -> (position: i32)
        requires
            self.wf(),
        ensures
            position == position_of(self@, name@, 0),
            -1 <= position < self@.len(),
    {
        let mut i: usize = 0;
        while i < self.symbol_list.len()
            invariant
                i <= self.symbol_list.len(),
                self.wf(),
                position_of(self@, name@, i as int) == position_of(self@, name@, 0),
            decreases self.symbol_list.len() - i,
        {
            if same_text(self.symbol_list[i].name.as_str(), name.as_str()) {
                return i as i32;
            }
            i += 1;
        }
        -1
    }

    /// Declares a symbol with the given name at the end of the table and
    /// returns its position.
    pub fn add_symbol(&mut self, s_name: String) -> (position: i32)
        requires
            old(self).has_room(),
        ensures
            final(self).wf(),
            position == old(self)@.len(),
            final(self)@ == old(self)@.push(s_name@),
            final(self).number() == old(self).number(),
            final(self).displacement() == old(self).displacement(),
    {
        let id = self.symbol_list.len() as i32;
        self.symbol_list.push(
            Symbol {
                name: s_name,
                identifier: id,
                symbol_type: SymType::Untyped,
                param_type: SymType::Untyped,
                ret_type: SymType::Untyped,
            },
        );
        assert(self@ =~= old(self)@.push(s_name@));
        id
    }
}

/// A message to the administrator of the tables.
#[derive(Debug)]
pub enum TsOption {
    Create,
    Destroy,
    Handle(String),
    StartDeclaring,
    StopDeclaring,
    End,
}

/// What the loop around the administrator does after a message: go on,
/// send an answer and go on, or stop.
#[derive(Debug)]
pub enum TsStep {
    Continue,
    Reply(Result<i32, String>),
    Stop,
}

/// The model of the administrator: the names of each table, the innermost
/// scope last, and whether names are being declared.
pub struct TableAdminView {
    pub tables: Seq<Seq<Seq<char>>>,
    pub declaring: bool,
}

/// The model of an answer: a position, or the text of an error.
pub open spec fn answer_view(answer: Result<i32, String>) -> Result<int, Seq<char>> {
    match answer {
        Ok(position) => Ok(position as int),
        Err(message) => Err(message@),
    }
}

/// The answer to a name that is handled in the table `table`, and the
/// tables afterwards. A name that the table holds is found, unless names
/// are being declared, where it is an error to declare it again. A name
/// that the table does not hold is declared in the innermost table where
/// names are being declared, and is missing otherwise.
pub open spec fn handle_in(state: TableAdminView, name: Seq<char>, table: int) -> (
    Result<int, Seq<char>>,
    TableAdminView,
) {
    let position = position_of(state.tables[table], name, 0);
    if position != -1 && !state.declaring {
        (Ok(position), state)
    } else if position != -1 {
        (Err("can't declare a variable twice"@), state)
    } else if state.declaring {
        let top = state.tables.len() - 1;
        (
            Ok(state.tables[top].len() as int),
            TableAdminView {
                tables: state.tables.update(top, state.tables[top].push(name)),
                declaring: state.declaring,
            },
        )
    } else {
        (Err("can't find the variable"@), state)
    }
}

/// The answer to a name, and the tables afterwards: the name is handled in
/// the innermost table and, where it is missing there, in the outermost.
pub open spec fn handle(state: TableAdminView, name: Seq<char>) -> (
    Result<int, Seq<char>>,
    TableAdminView,
) {
    if state.tables.len() == 0 {
        (Err("No tables created"@), state)
    } else {
        let inner = handle_in(state, name, state.tables.len() - 1);
        if inner.0 == Err::<int, Seq<char>>("can't find the variable"@) {
            handle_in(inner.1, name, 0)
        } else {
            inner
        }
    }
}

/// The tables after a message.
pub open spec fn after(state: TableAdminView, option: TsOption) -> TableAdminView {
    match option {
        TsOption::Create => TableAdminView {
            tables: state.tables.push(Seq::empty()),
            declaring: state.declaring,
        },
        TsOption::Destroy => TableAdminView {
            tables: if state.tables.len() > 0 {
                state.tables.drop_last()
            } else {
                state.tables
            },
            declaring: state.declaring,
        },
        TsOption::Handle(name) => handle(state, name@).1,
        TsOption::StartDeclaring => TableAdminView { tables: state.tables, declaring: true },
        TsOption::StopDeclaring => TableAdminView { tables: state.tables, declaring: false },
        TsOption::End => state,
    }
}

/// The administrator of the symbol tables.
pub struct TableAdmin {
    ts_stack: Vec<Table>,
    declaring: bool,
}

impl View for TableAdmin {
    type V = TableAdminView;

    closed spec fn view(&self) -> TableAdminView {
        TableAdminView {
            tables: Seq::new(self.ts_stack.len() as nat, |i: int| self.ts_stack[i]@),
            declaring: self.declaring,
        }
    }
}

impl TableAdmin {
    /// Every table is valid, and there are at most as many tables as a
    /// table number can count.
    pub open spec fn wf(&self) -> bool {
        &&& self@.tables.len() <= i32::MAX
        &&& forall|i: int| 0 <= i < self@.tables.len() ==> (#[trigger] self@.tables[i]).len()
            <= i32::MAX
    }

    /// Whether one more table can be made and one more name declared in
    /// the innermost table.
    pub open spec fn has_room(&self) -> bool {
        &&& self@.tables.len() < i32::MAX
        &&& self@.tables.len() > 0 ==> self@.tables[self@.tables.len() - 1].len() < i32::MAX
    }

    /// An administrator without tables that is not declaring.
    pub fn new() -> (admin: TableAdmin)
        ensures
            admin.wf(),
            admin.has_room(),
            admin@ == (TableAdminView { tables: Seq::empty(), declaring: false }),
    {
        let admin = TableAdmin { ts_stack: Vec::new(), declaring: false };
        assert(admin@.tables =~= Seq::empty());
        admin
    }

    /// Whether one more table can be made and one more name declared.
    pub fn room_left(&self) -> (r: bool)
        requires
            self.wf(),
        ensures
            r == self.has_room(),
    {
        let n = self.ts_stack.len();
        if n >= 0x7fff_ffff {
            return false;
        }
        if n > 0 {
            assert(self@.tables[n - 1] == self.ts_stack[n - 1]@);
            self.ts_stack[n - 1].room_left()
        } else {
            true
        }
    }

    /// Handles one message and says what the loop around the
    /// administrator does next.
    pub fn external_interface(&mut self, option: TsOption) -> (step: TsStep)
        requires
            old(self).wf(),
            old(self).has_room(),
        ensures
            final(self).wf(),
            final(self)@ == after(old(self)@, option),
            match step {
                TsStep::Continue => option is Create || option is Destroy || option
                    is StartDeclaring || option is StopDeclaring,
                TsStep::Reply(answer) => option is Handle && answer_view(answer) == handle(
                    old(self)@,
                    option->Handle_0@,
                ).0,
                TsStep::Stop => option is End,
            },
    {
        match option {
            TsOption::Create => {
                self.create_table();
                TsStep::Continue
            },
            TsOption::Destroy => {
                self.destroy_table();
                TsStep::Continue
            },
            TsOption::Handle(name) => TsStep::Reply(self.handle_symbol(name)),
            TsOption::StartDeclaring => {
                self.declaring = true;
                assert(self@.tables =~= old(self)@.tables);
                TsStep::Continue
            },
            TsOption::StopDeclaring => {
                self.declaring = false;
                assert(self@.tables =~= old(self)@.tables);
                TsStep::Continue
            },
            TsOption::End => TsStep::Stop,
        }
    }

    /// Opens a scope: a new, empty table becomes the innermost.
    pub fn create_table(&mut self)
        requires
            old(self).wf(),
            old(self)@.tables.len() < i32::MAX,
        ensures
            final(self).wf(),
            final(self)@ == after(old(self)@, TsOption::Create),
    {
        let id = self.ts_stack.len() as i32;
        self.ts_stack.push(Table::new(id));
        assert(self@.tables =~= old(self)@.tables.push(Seq::empty()));
    }

    /// Closes the innermost scope, if there is one.
    pub fn destroy_table(&mut self)
        requires
            old(self).wf(),
        ensures
            final(self).wf(),
            final(self)@ == after(old(self)@, TsOption::Destroy),
    {
        self.ts_stack.pop();
        proof {
            if old(self).ts_stack.len() > 0 {
                assert(self@.tables =~= old(self)@.tables.drop_last());
            } else {
                assert(self@.tables =~= old(self)@.tables);
            }
        }
    }

    /// Looks a name up or declares it, and returns its position in its
    /// table.
    pub fn handle_symbol(&mut self, name: String) -> (answer: Result<i32, String>)
        requires
            old(self).wf(),
            old(self).has_room(),
        ensures
            final(self).wf(),
            answer_view(answer) == handle(old(self)@, name@).0,
            final(self)@ == handle(old(self)@, name@).1,
    {
        if self.ts_stack.len() == 0 {
            return Err(String::from_str("No tables created"));
        }
        let top = self.ts_stack.len() - 1;
        let inner = self.handle_symbol_helper(name.clone(), top);
        let missing = match &inner {
            Err(message) => same_text(message.as_str(), "can't find the variable"),
            Ok(_) => false,
        };
        if missing {
            return self.handle_symbol_helper(name, 0);
        }
        inner
    }

    /// Handles a name in the table at `table_pos`.
    pub fn handle_symbol_helper(&mut self, name: String, table_pos: usize) -> (answer: Result<
        i32,
        String,
    >)
        requires
            old(self).wf(),
            table_pos < old(self)@.tables.len(),
            old(self)@.declaring ==> old(self).has_room(),
        ensures
            final(self).wf(),
            answer_view(answer) == handle_in(old(self)@, name@, table_pos as int).0,
            final(self)@ == handle_in(old(self)@, name@, table_pos as int).1,
            final(self)@.declaring == old(self)@.declaring,
            final(self)@.tables.len() == old(self)@.tables.len(),
            answer is Err ==> final(self)@ == old(self)@,
    {
        assert(self@.tables[table_pos as int] == self.ts_stack[table_pos as int]@);
        assert(self@.tables[table_pos as int].len() <= i32::MAX);
        let pos = self.ts_stack[table_pos].search_for_name(name.clone());
        if pos != -1 && !self.declaring {
            return Ok(pos);
        }
        if pos != -1 && self.declaring {
            return Err(String::from_str("can't declare a variable twice"));
        }
        if pos == -1 && self.declaring {
            let top = self.ts_stack.len() - 1;
            assert(self@.tables[top as int] == self.ts_stack[top as int]@);
            let table = &mut self.ts_stack[top];
            let pos = table.add_symbol(name);
            proof {
                assert(self@.tables =~= old(self)@.tables.update(
                    top as int,
                    old(self)@.tables[top as int].push(name@),
                ));
                assert forall|i: int| 0 <= i < self@.tables.len() implies (
                #[trigger] self@.tables[i]).len() <= i32::MAX by {
                    if i != top {
                        assert(self@.tables[i] == old(self)@.tables[i]);
                    }
                }
            }
            return Ok(pos);
        }
        Err(String::from_str("can't find the variable"))
    }
}

} // verus!
