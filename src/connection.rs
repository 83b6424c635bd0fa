//! Sessions with the engine, and the requests that a session hands to the engine.
//!
//! Opening a session takes two steps: `Connection::open` (or one of its short forms)
//! encodes the connect arguments, and `ConnectRequest::finish` takes what the engine's
//! connect call gave back. Each operation on an open `Connection` works the same way: it
//! encodes its text arguments into a request, whose `finish` takes the engine's answer.
//! A text holding a nul byte is refused before any request exists, so no engine call is
//! made with it.
use vstd::prelude::*;
use vstd::string::{StringExecFns, StringSliceAdditionalSpecFns};

use crate::arrow_stream::{ArrowArray, ArrowSchema, ArrowStream};
use crate::c_string::{
    c_string_of, is_nul_free, lemma_nul_index_bounds, nul_index, CText,
};
use crate::error::Error;

verus! {

/// The program name that the engine is started under: the first connect argument.
pub const ENGINE_NAME: &'static str = "clickhouse";

/// The connect argument that gives the engine a directory to keep its data in, before the
/// path itself.
pub const PATH_FLAG: &'static str = "--path=";

/// The status by which the engine reports success; every other status is a failure.
pub const STATUS_SUCCESS: u32 = 0;

/// The bytes of each text of `args`.
pub open spec fn bytes_of(args: Seq<&str>) -> Seq<Seq<u8>> {
    args.map_values(|s: &str| s.spec_bytes())
}

/// The bytes of each C string of `v`.
pub open spec fn texts(v: Seq<CText>) -> Seq<Seq<u8>> {
    v.map_values(|c: CText| c@)
}

/// The C strings for the texts `args` (given by their bytes), or the encoding error of the
/// first of them that holds a nul byte.
pub open spec fn c_strings_of(args: Seq<Seq<u8>>) -> Result<Seq<Seq<u8>>, Error>
    decreases args.len(),
{
    if args.len() == 0 {
        Ok(Seq::empty())
    } else {
        match c_strings_of(args.drop_last()) {
            Err(e) => Err(e),
            Ok(init) => match c_string_of(args.last()) {
                Err(e) => Err(e),
                Ok(c) => Ok(init.push(c)),
            },
        }
    }
}

/// Once some texts at the front cannot be encoded, the whole list fails with their error.
pub proof fn lemma_c_strings_of_failed_prefix(args: Seq<Seq<u8>>, k: int)
    requires
        0 <= k <= args.len(),
        c_strings_of(args.subrange(0, k)) is Err,
    ensures
        c_strings_of(args) == c_strings_of(args.subrange(0, k)),
    decreases args.len() - k,
{
    if k == args.len() {
        assert(args.subrange(0, k) == args);
    } else {
        let init = args.drop_last();
        assert(init.subrange(0, k) == args.subrange(0, k));
        lemma_c_strings_of_failed_prefix(init, k);
    }
}

/// The engine's name and the path flag hold no nul byte.
proof fn lemma_literals_nul_free()
    ensures
        c_string_of(ENGINE_NAME.spec_bytes()) == Ok::<Seq<u8>, Error>(
            ENGINE_NAME.spec_bytes().push(0),
        ),
        nul_index(PATH_FLAG.spec_bytes()) == PATH_FLAG.spec_bytes().len(),
{
    reveal_strlit("clickhouse");
    reveal_strlit("--path=");
    lemma_nul_index_bounds(ENGINE_NAME.spec_bytes());
    lemma_nul_index_bounds(PATH_FLAG.spec_bytes());
    assert(vstd::string::is_ascii(ENGINE_NAME));
    assert(vstd::string::is_ascii(PATH_FLAG));
    assert(is_nul_free(ENGINE_NAME.spec_bytes()));
    assert(is_nul_free(PATH_FLAG.spec_bytes()));
}

/// A request to open a session: the connect arguments, each as a C string.
pub struct ConnectRequest {
    argv: Vec<CText>,
}

/// Connect arguments of a request, or the error that stopped it.
pub open spec fn connect_args(r: Result<ConnectRequest, Error>) -> Result<Seq<Seq<u8>>, Error> {
    match r {
        Ok(q) => Ok(q.args()),
        Err(e) => Err(e),
    }
}

impl ConnectRequest {
    /// The connect arguments, each with its closing nul byte.
    pub closed spec fn args(&self) -> Seq<Seq<u8>> {
        texts(self.argv@)
    }

    /// The connect arguments, in order, for the engine's connect call.
    pub fn argv(&self) -> (r: &Vec<CText>)
        ensures
            texts(r@) == self.args(),
    {
        &self.argv
    }

    /// Takes the engine's answer to the connect call: `handle` is the address of the
    /// connection object it returned, and `session` the session address that object holds
    /// (0 for null; 0 too where `handle` is null and so holds nothing). Either one null is
    /// a failed connect.
    pub fn finish(self, handle: usize, session: usize) -> (r: Result<Connection, Error>)
        ensures
            handle == 0 || session == 0 ==> r matches Err(Error::ConnectionFailed),
            handle != 0 && session != 0 ==> (r matches Ok(c) && c@ == handle),
    {
        if handle == 0 || session == 0 {
            Err(Error::ConnectionFailed)
        } else {
            Ok(Connection { handle })
        }
    }
}

/// A request to run a query on a session.
pub struct QueryRequest {
    handle: usize,
    sql: CText,
    format: CText,
}

/// What a query request holds: the session's connection handle, and the query text and
/// the output format's name as C strings.
pub struct QueryRequestView {
    pub handle: usize,
    pub sql: Seq<u8>,
    pub format: Seq<u8>,
}

/// The request for the query `sql` in the output format `format` (both given by their
/// bytes) on the connection `handle`, or the encoding error of the first of the two texts
/// that holds a nul byte.
pub open spec fn query_request(handle: usize, sql: Seq<u8>, format: Seq<u8>) -> Result<
    QueryRequestView,
    Error,
> {
    match c_string_of(sql) {
        Err(e) => Err(e),
        Ok(s) => match c_string_of(format) {
            Err(e) => Err(e),
            Ok(f) => Ok(QueryRequestView { handle, sql: s, format: f }),
        },
    }
}

impl View for QueryRequest {
    type V = QueryRequestView;

    closed spec fn view(&self) -> QueryRequestView {
        QueryRequestView { handle: self.handle, sql: self.sql@, format: self.format@ }
    }
}

impl QueryRequest {
    /// The address of the connection object to run the query on.
    pub fn handle(&self) -> (r: usize)
        ensures
            r == self@.handle,
    {
        self.handle
    }

    /// The query text as a C string.
    pub fn sql(&self) -> (r: &CText)
        ensures
            r@ == self@.sql,
    {
        &self.sql
    }

    /// The output format's name as a C string.
    pub fn format(&self) -> (r: &CText)
        ensures
            r@ == self@.format,
    {
        &self.format
    }

    /// Takes the engine's answer to the query: `result` is the address of the result
    /// object (0 for none), and `engine_error` the error that object reports, if any. A
    /// result object is only a success once it is known to report no error.
    pub fn finish(self, result: usize, engine_error: Option<String>) -> (r: Result<
        QueryResult,
        Error,
    >)
        ensures
            result == 0 ==> r matches Err(Error::NoResult),
            result != 0 && engine_error is Some ==> (r matches Err(Error::QueryError(m))
                && m == engine_error->0),
            result != 0 && engine_error is None ==> (r matches Ok(q) && q@ == result),
    {
        if result == 0 {
            Err(Error::NoResult)
        } else {
            match engine_error {
                Some(m) => Err(Error::QueryError(m)),
                None => Ok(QueryResult { handle: result }),
            }
        }
    }
}

/// The result object of a query that succeeded, by address. It is the caller's to release.
pub struct QueryResult {
    handle: usize,
}

impl View for QueryResult {
    type V = usize;

    closed spec fn view(&self) -> usize {
        self.handle
    }
}

impl QueryResult {
    #[verifier::type_invariant]
    spec fn inv(self) -> bool {
        self.handle != 0
    }

    /// The address of the result object, never null.
    pub fn as_raw(&self) -> (r: usize)
        ensures
            r == self@,
            r != 0,
    {
        proof {
            use_type_invariant(self);
        }
        self.handle
    }
}

/// What a request on a table name asks of the engine.
#[derive(Debug, Clone, Copy)]
pub enum TableAction {
    /// Register an Arrow stream under the name.
    RegisterStream(ArrowStream),
    /// Register an Arrow array, with the schema that describes it, under the name.
    RegisterArray(ArrowSchema, ArrowArray),
    /// Remove what is registered under the name.
    Unregister,
}

/// A request to register, or unregister, a table name on a session.
pub struct TableRequest {
    handle: usize,
    table: CText,
    name: String,
    action: TableAction,
}

/// What a table request holds: the session's connection handle, the table name as a C
/// string and as text, and the action.
pub struct TableRequestView {
    pub handle: usize,
    pub table: Seq<u8>,
    pub name: Seq<char>,
    pub action: TableAction,
}

/// The request for `action` on the table name `name` on the connection `handle`, or the
/// encoding error where the name holds a nul byte. Handles are passed on as they are.
pub open spec fn table_request(handle: usize, name: &str, action: TableAction) -> Result<
    TableRequestView,
    Error,
> {
    match c_string_of(name.spec_bytes()) {
        Err(e) => Err(e),
        Ok(t) => Ok(TableRequestView { handle, table: t, name: name@, action }),
    }
}

/// The message of a failed table request: what was asked, and the table name.
pub open spec fn failure_message(action: TableAction, name: Seq<char>) -> Seq<char> {
    match action {
        TableAction::RegisterStream(_) => "Failed to register Arrow stream as table '"@ + name
            + "'"@,
        TableAction::RegisterArray(_, _) => "Failed to register Arrow array as table '"@ + name
            + "'"@,
        TableAction::Unregister => "Failed to unregister Arrow table '"@ + name + "'"@,
    }
}

/// How a table request ends on the engine's status: `None` for success, else the message
/// of the failure.
pub open spec fn table_outcome(req: TableRequestView, status: u32) -> Option<Seq<char>> {
    if status == STATUS_SUCCESS {
        None
    } else {
        Some(failure_message(req.action, req.name))
    }
}

impl View for TableRequest {
    type V = TableRequestView;

    closed spec fn view(&self) -> TableRequestView {
        TableRequestView {
            handle: self.handle,
            table: self.table@,
            name: self.name@,
            action: self.action,
        }
    }
}

impl TableRequest {
    /// The address of the connection object to act on.
    pub fn handle(&self) -> (r: usize)
        ensures
            r == self@.handle,
    {
        self.handle
    }

    /// The table name as a C string.
    pub fn table(&self) -> (r: &CText)
        ensures
            r@ == self@.table,
    {
        &self.table
    }

    /// What the engine is asked to do under the name.
    pub fn action(&self) -> (r: TableAction)
        ensures
            r == self@.action,
    {
        self.action
    }

    /// Takes the status that the engine reported: success, or a `QueryError` that names
    /// the table.
    pub fn finish(self, status: u32) -> (r: Result<(), Error>)
        ensures
            r is Ok <==> table_outcome(self@, status) is None,
            r matches Err(e) ==> (e matches Error::QueryError(m) && table_outcome(self@, status)
                == Some(m@)),
    {
        if status == STATUS_SUCCESS {
            Ok(())
        } else {
            let mut m = match self.action {
                TableAction::RegisterStream(_) => String::from_str(
                    "Failed to register Arrow stream as table '",
                ),
                TableAction::RegisterArray(_, _) => String::from_str(
                    "Failed to register Arrow array as table '",
                ),
                TableAction::Unregister => String::from_str("Failed to unregister Arrow table '"),
            };
            m.append(self.name.as_str());
            m.append("'");
            Err(Error::QueryError(m))
        }
    }
}

/// An open session with the engine, by the address of its connection object. The session
/// is released by `close`, which takes the connection: a session is released once.
pub struct Connection {
    handle: usize,
}

impl View for Connection {
    type V = usize;

    closed spec fn view(&self) -> usize {
        self.handle
    }
}

impl Connection {
    #[verifier::type_invariant]
    spec fn inv(self) -> bool {
        self.handle != 0
    }

    /// The request to connect with the command-line arguments `args`, or the encoding error
    /// of the first argument that holds a nul byte.
    pub fn open(args: &[&str]) -> (r: Result<ConnectRequest, Error>)
        ensures
            connect_args(r) == c_strings_of(bytes_of(args@)),
    {
        let ghost all = bytes_of(args@);
        let mut argv: Vec<CText> = Vec::new();
        let mut i: usize = 0;
        assert(all.subrange(0, 0) =~= Seq::<Seq<u8>>::empty());
        assert(texts(argv@) =~= Seq::<Seq<u8>>::empty());
        while i < args.len()
            invariant
                0 <= i <= args@.len(),
                all == bytes_of(args@),
                c_strings_of(all.subrange(0, i as int)) == Ok::<Seq<Seq<u8>>, Error>(
                    texts(argv@),
                ),
            decreases args@.len() - i,
        {
            let ghost prefix = all.subrange(0, i + 1);
            assert(prefix.drop_last() == all.subrange(0, i as int));
            assert(prefix.last() == args@[i as int].spec_bytes());
            match CText::new(args[i]) {
                Err(e) => {
                    proof {
                        lemma_c_strings_of_failed_prefix(all, i + 1);
                    }
                    return Err(e);
                },
                Ok(c) => {
                    let ghost before = argv@;
                    argv.push(c);
                    assert(texts(argv@) =~= texts(before).push(c@));
                },
            }
            i = i + 1;
        }
        assert(all.subrange(0, i as int) == all);
        Ok(ConnectRequest { argv })
    }

    /// The request to connect to a database held in memory only.
    pub fn open_in_memory() -> (r: Result<ConnectRequest, Error>)
        ensures
            r matches Ok(q) && q.args() == seq![ENGINE_NAME.spec_bytes().push(0)],
    {
        let args: [&str; 1] = [ENGINE_NAME];
        proof {
            lemma_literals_nul_free();
            assert(bytes_of(args@) =~= seq![ENGINE_NAME.spec_bytes()]);
            assert(c_strings_of(bytes_of(args@).drop_last()) == Ok::<Seq<Seq<u8>>, Error>(
                Seq::empty(),
            ));
        }
        Self::open(&args)
    }

    /// The request to connect to a database kept in the directory `path`, which the engine
    /// creates where it is missing; or the encoding error where `path` holds a nul byte (at
    /// its position in the path argument, after the flag).
    pub fn open_with_path(path: &str) -> (r: Result<ConnectRequest, Error>)
        ensures
            connect_args(r) == match c_string_of(PATH_FLAG.spec_bytes() + path.spec_bytes()) {
                Ok(p) => Ok(seq![ENGINE_NAME.spec_bytes().push(0), p]),
                Err(e) => Err(e),
            },
    {
        proof {
            lemma_literals_nul_free();
        }
        let name = match CText::new(ENGINE_NAME) {
            Ok(c) => c,
            Err(e) => return Err(e),
        };
        let path_arg = match CText::concat(PATH_FLAG, path) {
            Ok(c) => c,
            Err(e) => return Err(e),
        };
        let mut argv: Vec<CText> = Vec::new();
        argv.push(name);
        argv.push(path_arg);
        let r = ConnectRequest { argv };
        assert(r.args() =~= seq![name@, path_arg@]);
        Ok(r)
    }

    /// The request to run the query `sql`, its output written in the format named
    /// `format`; or the encoding error of the first of the two that holds a nul byte.
    pub fn query(&self, sql: &str, format: &str) -> (r: Result<QueryRequest, Error>)
        ensures
            match r {
                Ok(q) => query_request(self@, sql.spec_bytes(), format.spec_bytes()) == Ok::<
                    QueryRequestView,
                    Error,
                >(q@),
                Err(e) => query_request(self@, sql.spec_bytes(), format.spec_bytes()) == Err::<
                    QueryRequestView,
                    Error,
                >(e),
            },
    {
        let sql_c = match CText::new(sql) {
            Ok(c) => c,
            Err(e) => return Err(e),
        };
        let format_c = match CText::new(format) {
            Ok(c) => c,
            Err(e) => return Err(e),
        };
        Ok(QueryRequest { handle: self.handle, sql: sql_c, format: format_c })
    }

    /// The request for `action` on the table name `table_name`.
    fn prepare_table_request(&self, table_name: &str, action: TableAction) -> (r: Result<
        TableRequest,
        Error,
    >)
        ensures
            match r {
                Ok(q) => table_request(self@, table_name, action) == Ok::<TableRequestView, Error>(
                    q@,
                ),
                Err(e) => table_request(self@, table_name, action) == Err::<
                    TableRequestView,
                    Error,
                >(e),
            },
    {
        match CText::new(table_name) {
            Ok(table) => Ok(
                TableRequest {
                    handle: self.handle,
                    table,
                    name: String::from_str(table_name),
                    action,
                },
            ),
            Err(e) => Err(e),
        }
    }

    /// The request to register the Arrow stream `arrow_stream` as the table `table_name`;
    /// or the encoding error where the name holds a nul byte. The handle is not checked.
    pub fn register_arrow_stream(&self, table_name: &str, arrow_stream: &ArrowStream) -> (r:
        Result<TableRequest, Error>)
        ensures
            match r {
                Ok(q) => table_request(self@, table_name, TableAction::RegisterStream(*arrow_stream))
                    == Ok::<TableRequestView, Error>(q@),
                Err(e) => table_request(self@, table_name, TableAction::RegisterStream(*arrow_stream))
                    == Err::<TableRequestView, Error>(e),
            },
    {
        self.prepare_table_request(table_name, TableAction::RegisterStream(*arrow_stream))
    }

    /// The request to register the Arrow array `arrow_array`, described by `arrow_schema`,
    /// as the table `table_name`; or the encoding error where the name holds a nul byte.
    /// The handles are not checked.
    pub fn register_arrow_array(
        &self,
        table_name: &str,
        arrow_schema: &ArrowSchema,
        arrow_array: &ArrowArray,
    ) -> (r: Result<TableRequest, Error>)
        ensures
            match r {
                Ok(q) => table_request(
                    self@,
                    table_name,
                    TableAction::RegisterArray(*arrow_schema, *arrow_array),
                ) == Ok::<TableRequestView, Error>(q@),
                Err(e) => table_request(
                    self@,
                    table_name,
                    TableAction::RegisterArray(*arrow_schema, *arrow_array),
                ) == Err::<TableRequestView, Error>(e),
            },
    {
        self.prepare_table_request(table_name, TableAction::RegisterArray(*arrow_schema, *arrow_array))
    }

    /// The request to remove the table `table_name`; or the encoding error where the name
    /// holds a nul byte. Whether such a table exists is left to the engine.
    pub fn unregister_arrow_table(&self, table_name: &str) -> (r: Result<TableRequest, Error>)
        ensures
            match r {
                Ok(q) => table_request(self@, table_name, TableAction::Unregister) == Ok::<
                    TableRequestView,
                    Error,
                >(q@),
                Err(e) => table_request(self@, table_name, TableAction::Unregister) == Err::<
                    TableRequestView,
                    Error,
                >(e),
            },
    {
        self.prepare_table_request(table_name, TableAction::Unregister)
    }

    /// Ends the session: the connection is taken, and the address of its connection
    /// object, never null, is handed back for the engine's close call.
    pub fn close(self) -> (r: usize)
        ensures
            r == self@,
            r != 0,
    {
        proof {
            use_type_invariant(&self);
        }
        self.handle
    }
}

/// A text that holds a nul byte is refused alike by every operation that takes it: as a
/// table name by both registrations and by unregistration, as the query text or the format
/// name by a query, and as a connect argument. Each fails with the same encoding error, at
/// the text's first nul byte, and no request for the engine comes into being.
pub proof fn lemma_nul_text_refused_alike(
    handle: usize,
    text: &str,
    other: &str,
    stream: ArrowStream,
    schema: ArrowSchema,
    array: ArrowArray,
)
    requires
        !is_nul_free(text.spec_bytes()),
    ensures
        ({
            let e = Error::Nul(nul_index(text.spec_bytes()) as usize);
            &&& table_request(handle, text, TableAction::RegisterStream(stream)) == Err::<
                TableRequestView,
                Error,
            >(e)
            &&& table_request(handle, text, TableAction::RegisterArray(schema, array)) == Err::<
                TableRequestView,
                Error,
            >(e)
            &&& table_request(handle, text, TableAction::Unregister) == Err::<
                TableRequestView,
                Error,
            >(e)
            &&& query_request(handle, text.spec_bytes(), other.spec_bytes()) == Err::<
                QueryRequestView,
                Error,
            >(e)
            &&& is_nul_free(other.spec_bytes()) ==> query_request(
                handle,
                other.spec_bytes(),
                text.spec_bytes(),
            ) == Err::<QueryRequestView, Error>(e)
            &&& c_strings_of(seq![text.spec_bytes()]) == Err::<Seq<Seq<u8>>, Error>(e)
        }),
{
    lemma_nul_index_bounds(text.spec_bytes());
    lemma_nul_index_bounds(other.spec_bytes());
    assert(seq![text.spec_bytes()].drop_last() =~= Seq::<Seq<u8>>::empty());
    assert(c_strings_of(Seq::empty()) == Ok::<Seq<Seq<u8>>, Error>(Seq::empty()));
}

/// A registration with null handles is prepared like any other, whatever the table name,
/// as long as it holds no nul byte: no handle is checked on this side. How it ends is then
/// fixed by the engine's status alone: success for the success status, and for any other
/// a `QueryError` that names the table.
pub proof fn lemma_null_handles_registered_as_given(
    handle: usize,
    name: &str,
    stream: ArrowStream,
    schema: ArrowSchema,
    array: ArrowArray,
    status: u32,
)
    requires
        is_nul_free(name.spec_bytes()),
        stream@ == 0,
        schema@ == 0,
        array@ == 0,
    ensures
        table_request(handle, name, TableAction::RegisterStream(stream)) matches Ok(q) && q.action
            == TableAction::RegisterStream(stream) && (table_outcome(q, status) is None <==> status
            == STATUS_SUCCESS),
        table_request(handle, name, TableAction::RegisterArray(schema, array)) matches Ok(q)
            && q.action == TableAction::RegisterArray(schema, array) && (table_outcome(q, status)
            is None <==> status == STATUS_SUCCESS),
{
    lemma_nul_index_bounds(name.spec_bytes());
}

/// Unregistering a table name that holds no nul byte is always prepared, without asking
/// whether the name was ever registered; how it ends is fixed by the engine's status alone,
/// so the same name and the same status give the same outcome on every call.
pub proof fn lemma_unregister_any_name(handle: usize, name: &str, status: u32)
    requires
        is_nul_free(name.spec_bytes()),
    ensures
        table_request(handle, name, TableAction::Unregister) matches Ok(q) && q.table
            == name.spec_bytes().push(0) && table_outcome(q, status) == if status
            == STATUS_SUCCESS {
            None::<Seq<char>>
        } else {
            Some("Failed to unregister Arrow table '"@ + name@ + "'"@)
        },
{
    lemma_nul_index_bounds(name.spec_bytes());
}

} // verus!
