//! The host functions: their names, their types, and which of them a guest can
//! import.

use vstd::prelude::*;

use crate::abi::MODULE;

verus! {

/// A value that a host function hands back to the guest.
#[derive(Debug, Clone, Copy, PartialEq, Eq, Structural)]
pub enum WasmValue {
    I32(i32),
    I64(i64),
}

/// The type of a [`WasmValue`].
#[derive(Debug, Clone, Copy, PartialEq, Eq, Structural)]
pub enum WasmType {
    I32,
    I64,
}

/// The host functions. The last two are the outbound-HTTP extension.
#[derive(Debug, Clone, Copy, PartialEq, Eq, Structural)]
pub enum HostFn {
    GetMethod,
    SetMethod,
    GetUri,
    SetUri,
    GetProtocolVersion,
    GetSourceAddr,
    GetStatusCode,
    SetStatusCode,
    GetHeaderNames,
    GetHeaderValues,
    SetHeaderValue,
    AddHeaderValue,
    RemoveHeader,
    ReadBody,
    WriteBody,
    GetConfig,
    EnableFeatures,
    Log,
    LogEnabled,
    HttpFetch,
    HttpSend,
}

impl HostFn {
    /// The name a guest imports the function by.
    pub open spec fn import_name(self) -> Seq<char> {
        match self {
            HostFn::GetMethod => "get_method"@,
            HostFn::SetMethod => "set_method"@,
            HostFn::GetUri => "get_uri"@,
            HostFn::SetUri => "set_uri"@,
            HostFn::GetProtocolVersion => "get_protocol_version"@,
            HostFn::GetSourceAddr => "get_source_addr"@,
            HostFn::GetStatusCode => "get_status_code"@,
            HostFn::SetStatusCode => "set_status_code"@,
            HostFn::GetHeaderNames => "get_header_names"@,
            HostFn::GetHeaderValues => "get_header_values"@,
            HostFn::SetHeaderValue => "set_header_value"@,
            HostFn::AddHeaderValue => "add_header_value"@,
            HostFn::RemoveHeader => "remove_header"@,
            HostFn::ReadBody => "read_body"@,
            HostFn::WriteBody => "write_body"@,
            HostFn::GetConfig => "get_config"@,
            HostFn::EnableFeatures => "enable_features"@,
            HostFn::Log => "log"@,
            HostFn::LogEnabled => "log_enabled"@,
            HostFn::HttpFetch => "http_fetch"@,
            HostFn::HttpSend => "http_send"@,
        }
    }

    /// The name a guest imports the function by.
    pub fn name(self) -> (name: &'static str)
        ensures
            name@ == self.import_name(),
    {
        match self {
            HostFn::GetMethod => "get_method",
            HostFn::SetMethod => "set_method",
            HostFn::GetUri => "get_uri",
            HostFn::SetUri => "set_uri",
            HostFn::GetProtocolVersion => "get_protocol_version",
            HostFn::GetSourceAddr => "get_source_addr",
            HostFn::GetStatusCode => "get_status_code",
            HostFn::SetStatusCode => "set_status_code",
            HostFn::GetHeaderNames => "get_header_names",
            HostFn::GetHeaderValues => "get_header_values",
            HostFn::SetHeaderValue => "set_header_value",
            HostFn::AddHeaderValue => "add_header_value",
            HostFn::RemoveHeader => "remove_header",
            HostFn::ReadBody => "read_body",
            HostFn::WriteBody => "write_body",
            HostFn::GetConfig => "get_config",
            HostFn::EnableFeatures => "enable_features",
            HostFn::Log => "log",
            HostFn::LogEnabled => "log_enabled",
            HostFn::HttpFetch => "http_fetch",
            HostFn::HttpSend => "http_send",
        }
    }

    /// The number of arguments, all of which are `i32`.
    pub open spec fn argument_count(self) -> nat {
        match self {
            HostFn::GetStatusCode => 0,
            HostFn::SetStatusCode | HostFn::EnableFeatures | HostFn::LogEnabled => 1,
            HostFn::GetMethod
            | HostFn::SetMethod
            | HostFn::GetUri
            | HostFn::SetUri
            | HostFn::GetProtocolVersion
            | HostFn::GetSourceAddr
            | HostFn::GetConfig
            | HostFn::HttpSend => 2,
            HostFn::GetHeaderNames
            | HostFn::RemoveHeader
            | HostFn::ReadBody
            | HostFn::WriteBody
            | HostFn::Log => 3,
            HostFn::HttpFetch => 4,
            HostFn::GetHeaderValues | HostFn::SetHeaderValue | HostFn::AddHeaderValue => 5,
        }
    }

    /// The number of arguments, all of which are `i32`.
    pub fn arity(self) -> (n: usize)
        ensures
            n == self.argument_count(),
    {
        match self {
            HostFn::GetStatusCode => 0,
            HostFn::SetStatusCode | HostFn::EnableFeatures | HostFn::LogEnabled => 1,
            HostFn::GetMethod
            | HostFn::SetMethod
            | HostFn::GetUri
            | HostFn::SetUri
            | HostFn::GetProtocolVersion
            | HostFn::GetSourceAddr
            | HostFn::GetConfig
            | HostFn::HttpSend => 2,
            HostFn::GetHeaderNames
            | HostFn::RemoveHeader
            | HostFn::ReadBody
            | HostFn::WriteBody
            | HostFn::Log => 3,
            HostFn::HttpFetch => 4,
            HostFn::GetHeaderValues | HostFn::SetHeaderValue | HostFn::AddHeaderValue => 5,
        }
    }

    /// The type of the result, for the functions that have one.
    pub open spec fn result_type(self) -> Option<WasmType> {
        match self {
            HostFn::GetMethod
            | HostFn::GetUri
            | HostFn::GetProtocolVersion
            | HostFn::GetSourceAddr
            | HostFn::GetStatusCode
            | HostFn::GetConfig
            | HostFn::EnableFeatures
            | HostFn::LogEnabled
            | HostFn::HttpSend => Some(WasmType::I32),
            HostFn::GetHeaderNames
            | HostFn::GetHeaderValues
            | HostFn::ReadBody
            | HostFn::HttpFetch => Some(WasmType::I64),
            HostFn::SetMethod
            | HostFn::SetUri
            | HostFn::SetStatusCode
            | HostFn::SetHeaderValue
            | HostFn::AddHeaderValue
            | HostFn::RemoveHeader
            | HostFn::WriteBody
            | HostFn::Log => None,
        }
    }

    /// The type of the result, for the functions that have one.
    pub fn result(self) -> (ty: Option<WasmType>)
        ensures
            ty == self.result_type(),
    {
        match self {
            HostFn::GetMethod
            | HostFn::GetUri
            | HostFn::GetProtocolVersion
            | HostFn::GetSourceAddr
            | HostFn::GetStatusCode
            | HostFn::GetConfig
            | HostFn::EnableFeatures
            | HostFn::LogEnabled
            | HostFn::HttpSend => Some(WasmType::I32),
            HostFn::GetHeaderNames
            | HostFn::GetHeaderValues
            | HostFn::ReadBody
            | HostFn::HttpFetch => Some(WasmType::I64),
            HostFn::SetMethod
            | HostFn::SetUri
            | HostFn::SetStatusCode
            | HostFn::SetHeaderValue
            | HostFn::AddHeaderValue
            | HostFn::RemoveHeader
            | HostFn::WriteBody
            | HostFn::Log => None,
        }
    }

    /// The types of the arguments.
    pub open spec fn parameter_types(self) -> Seq<WasmType> {
        Seq::new(self.argument_count(), |i: int| WasmType::I32)
    }

    /// The types of the arguments.
    pub fn parameters(self) -> (types: Vec<WasmType>)
        ensures
            types@ == self.parameter_types(),
    {
        let types = vec![WasmType::I32; self.arity()];
        assert(types@ =~= self.parameter_types());
        types
    }
}

/// The functions of the standard ABI.
pub open spec fn standard_functions() -> Seq<HostFn> {
    seq![
        HostFn::GetMethod,
        HostFn::SetMethod,
        HostFn::GetUri,
        HostFn::SetUri,
        HostFn::GetProtocolVersion,
        HostFn::GetSourceAddr,
        HostFn::GetStatusCode,
        HostFn::SetStatusCode,
        HostFn::GetHeaderNames,
        HostFn::GetHeaderValues,
        HostFn::SetHeaderValue,
        HostFn::AddHeaderValue,
        HostFn::RemoveHeader,
        HostFn::ReadBody,
        HostFn::WriteBody,
        HostFn::GetConfig,
        HostFn::EnableFeatures,
        HostFn::Log,
        HostFn::LogEnabled,
    ]
}

/// The functions that a guest can import: those of the standard ABI, and each
/// function of the extension that there is something behind.
pub open spec fn available(fetch: bool, send: bool) -> Seq<HostFn> {
    standard_functions() + (if fetch {
        seq![HostFn::HttpFetch]
    } else {
        seq![]
    }) + (if send {
        seq![HostFn::HttpSend]
    } else {
        seq![]
    })
}

/// The functions that a guest can import: those of the standard ABI, and each
/// function of the extension that there is something behind.
pub fn host_functions(fetch: bool, send: bool) -> (functions: Vec<HostFn>)
    ensures
        functions@ == available(fetch, send),
{
    let mut functions: Vec<HostFn> = vec![
        HostFn::GetMethod,
        HostFn::SetMethod,
        HostFn::GetUri,
        HostFn::SetUri,
        HostFn::GetProtocolVersion,
        HostFn::GetSourceAddr,
        HostFn::GetStatusCode,
        HostFn::SetStatusCode,
        HostFn::GetHeaderNames,
        HostFn::GetHeaderValues,
        HostFn::SetHeaderValue,
        HostFn::AddHeaderValue,
        HostFn::RemoveHeader,
        HostFn::ReadBody,
        HostFn::WriteBody,
        HostFn::GetConfig,
        HostFn::EnableFeatures,
        HostFn::Log,
        HostFn::LogEnabled,
    ];
    assert(functions@ =~= standard_functions());
    if fetch {
        functions.push(HostFn::HttpFetch);
    }
    if send {
        functions.push(HostFn::HttpSend);
    }
    assert(functions@ =~= available(fetch, send));
    functions
}

/// The module and the name that a guest imports a function from.
pub open spec fn import_key(f: HostFn) -> (Seq<char>, Seq<char>) {
    (MODULE@, f.import_name())
}

/// The given functions by what a guest imports them from.
pub open spec fn import_table(functions: Seq<HostFn>) -> Map<(Seq<char>, Seq<char>), HostFn>
    decreases functions.len(),
{
    if functions.len() == 0 {
        Map::empty()
    } else {
        import_table(functions.drop_last()).insert(import_key(functions.last()), functions.last())
    }
}

/// What a guest imports under a name.
pub enum ImportKind {
    /// A function whose parameters are of the given types, with a result of the
    /// given type or without one.
    Function(Seq<WasmType>, Option<WasmType>),
    /// Anything else, functions of other types included.
    Other,
}

/// What a guest that wants to call `f` imports.
pub open spec fn function_kind(f: HostFn) -> ImportKind {
    ImportKind::Function(f.parameter_types(), f.result_type())
}

/// Whether each of the imports, given by module, name and kind, is in the table
/// and is of the type that the function there has.
pub open spec fn satisfied(
    imports: Set<(Seq<char>, Seq<char>, ImportKind)>,
    table: Map<(Seq<char>, Seq<char>), HostFn>,
) -> bool {
    forall|import: (Seq<char>, Seq<char>, ImportKind)| #[trigger]
        imports.contains(import) ==> table.contains_key((import.0, import.1)) && import.2
            == function_kind(table[(import.0, import.1)])
}

/// The length of a name and three of its characters, which tell it from all
/// others.
spec fn name_key(f: HostFn) -> (int, char, char, char) {
    match f {
        HostFn::GetMethod => (10, 'g', 'm', 'e'),
        HostFn::SetMethod => (10, 's', 'm', 'e'),
        HostFn::GetUri => (7, 'g', 'u', 'r'),
        HostFn::SetUri => (7, 's', 'u', 'r'),
        HostFn::GetProtocolVersion => (20, 'g', 'p', 'r'),
        HostFn::GetSourceAddr => (15, 'g', 's', 'o'),
        HostFn::GetStatusCode => (15, 'g', 's', 't'),
        HostFn::SetStatusCode => (15, 's', 's', 't'),
        HostFn::GetHeaderNames => (16, 'g', 'h', 'e'),
        HostFn::GetHeaderValues => (17, 'g', 'h', 'e'),
        HostFn::SetHeaderValue => (16, 's', 'h', 'e'),
        HostFn::AddHeaderValue => (16, 'a', 'h', 'e'),
        HostFn::RemoveHeader => (13, 'r', 'v', 'e'),
        HostFn::ReadBody => (9, 'r', '_', 'b'),
        HostFn::WriteBody => (10, 'w', 'e', '_'),
        HostFn::GetConfig => (10, 'g', 'c', 'o'),
        HostFn::EnableFeatures => (15, 'e', 'l', 'e'),
        HostFn::Log => (3, 'l', 'l', 'l'),
        HostFn::LogEnabled => (11, 'l', 'e', 'n'),
        HostFn::HttpFetch => (10, 'h', '_', 'f'),
        HostFn::HttpSend => (9, 'h', '_', 's'),
    }
}

/// The key of a name is read off it.
proof fn name_has_key(f: HostFn)
    ensures
        f.import_name().len() == name_key(f).0,
        f.import_name()[0] == name_key(f).1,
        f is Log || f.import_name()[4] == name_key(f).2,
        f is Log || f.import_name()[5] == name_key(f).3,
{
    reveal_strlit("get_method");
    reveal_strlit("set_method");
    reveal_strlit("get_uri");
    reveal_strlit("set_uri");
    reveal_strlit("get_protocol_version");
    reveal_strlit("get_source_addr");
    reveal_strlit("get_status_code");
    reveal_strlit("set_status_code");
    reveal_strlit("get_header_names");
    reveal_strlit("get_header_values");
    reveal_strlit("set_header_value");
    reveal_strlit("add_header_value");
    reveal_strlit("remove_header");
    reveal_strlit("read_body");
    reveal_strlit("write_body");
    reveal_strlit("get_config");
    reveal_strlit("enable_features");
    reveal_strlit("log");
    reveal_strlit("log_enabled");
    reveal_strlit("http_fetch");
    reveal_strlit("http_send");
}

/// A name is the name of one function only.
pub proof fn names_are_distinct(f: HostFn, g: HostFn)
    requires
        f.import_name() == g.import_name(),
    ensures
        f == g,
{
    name_has_key(f);
    name_has_key(g);
}

/// The place of a function among all.
spec fn place(f: HostFn) -> int {
    match f {
        HostFn::GetMethod => 0,
        HostFn::SetMethod => 1,
        HostFn::GetUri => 2,
        HostFn::SetUri => 3,
        HostFn::GetProtocolVersion => 4,
        HostFn::GetSourceAddr => 5,
        HostFn::GetStatusCode => 6,
        HostFn::SetStatusCode => 7,
        HostFn::GetHeaderNames => 8,
        HostFn::GetHeaderValues => 9,
        HostFn::SetHeaderValue => 10,
        HostFn::AddHeaderValue => 11,
        HostFn::RemoveHeader => 12,
        HostFn::ReadBody => 13,
        HostFn::WriteBody => 14,
        HostFn::GetConfig => 15,
        HostFn::EnableFeatures => 16,
        HostFn::Log => 17,
        HostFn::LogEnabled => 18,
        HostFn::HttpFetch => 19,
        HostFn::HttpSend => 20,
    }
}

/// No function is available twice.
pub proof fn available_once(fetch: bool, send: bool)
    ensures
        available(fetch, send).no_duplicates(),
{
    let all = available(fetch, send);
    assert forall|i: int, j: int| 0 <= i < j < all.len() implies #[trigger] all[i]
        != #[trigger] all[j] by {
        assert(i < 19 ==> place(all[i]) == i);
        assert(j < 19 ==> place(all[j]) == j);
        assert(j >= 19 ==> place(all[j]) >= 19);
        assert(i >= 19 ==> place(all[i]) == 19 && place(all[j]) == 20);
    }
}

/// A function of the standard ABI is always available, one of the extension
/// exactly if there is something behind it.
pub proof fn available_functions(fetch: bool, send: bool, f: HostFn)
    ensures
        available(fetch, send).contains(f) == match f {
            HostFn::HttpFetch => fetch,
            HostFn::HttpSend => send,
            _ => true,
        },
{
    let all = available(fetch, send);
    match f {
        HostFn::HttpFetch => {
            if fetch {
                assert(all[19] == f);
            }
        },
        HostFn::HttpSend => {
            if send {
                assert(all[all.len() - 1] == f);
            }
        },
        _ => {
            assert(all[place(f)] == f);
        },
    }
}

/// The keys in an import table are those of its functions, and each of them
/// stands for the function that has it.
pub proof fn import_table_entries(functions: Seq<HostFn>, key: (Seq<char>, Seq<char>))
    ensures
        import_table(functions).contains_key(key) <==> exists|i: int|
            0 <= i < functions.len() && #[trigger] import_key(functions[i]) == key,
        import_table(functions).contains_key(key) ==> import_key(import_table(functions)[key])
            == key,
    decreases functions.len(),
{
    if functions.len() > 0 {
        let rest = functions.drop_last();
        import_table_entries(rest, key);
        if import_table(rest).contains_key(key) {
            let i = choose|i: int| 0 <= i < rest.len() && #[trigger] import_key(rest[i]) == key;
            assert(import_key(functions[i]) == key);
        }
        if import_key(functions.last()) == key {
            assert(import_key(functions[functions.len() - 1]) == key);
        }
        if exists|i: int| 0 <= i < functions.len() && #[trigger] import_key(functions[i]) == key {
            let i = choose|i: int|
                0 <= i < functions.len() && #[trigger] import_key(functions[i]) == key;
            if i < rest.len() {
                assert(import_key(rest[i]) == key);
            }
        }
    }
}

/// A guest can import a function exactly if the function is available, and gets
/// that function. There is nothing else to import.
pub proof fn importable(fetch: bool, send: bool, f: HostFn, key: (Seq<char>, Seq<char>))
    ensures
        import_table(available(fetch, send)).contains_key(import_key(f)) == available(
            fetch,
            send,
        ).contains(f),
        available(fetch, send).contains(f) ==> import_table(available(fetch, send))[import_key(f)]
            == f,
        import_table(available(fetch, send)).contains_key(key) ==> key.0 == MODULE@,
{
    let all = available(fetch, send);
    import_table_entries(all, key);
    import_table_entries(all, import_key(f));
    if import_table(all).contains_key(import_key(f)) {
        names_are_distinct(import_table(all)[import_key(f)], f);
        let i = choose|i: int| 0 <= i < all.len() && #[trigger] import_key(all[i]) == import_key(f);
        names_are_distinct(all[i], f);
    }
    if all.contains(f) {
        let i = choose|i: int| 0 <= i < all.len() && all[i] == f;
        assert(import_key(all[i]) == import_key(f));
    }
}

/// Whether `values` are arguments for `f`: as many as it takes, and each an
/// `i32`.
pub open spec fn are_arguments_of(f: HostFn, values: Seq<Option<i32>>) -> bool {
    values.len() == f.argument_count() && forall|i: int|
        0 <= i < values.len() ==> #[trigger] values[i] is Some
}

/// The arguments for `f` out of the values that a guest passed, each given as an
/// `i32` if it is one. `None` if there are more or fewer than `f` takes, or one
/// is not an `i32`.
pub fn arguments_of(f: HostFn, values: &[Option<i32>]) -> (args: Option<Vec<i32>>)
    ensures
        args is Some <==> are_arguments_of(f, values@),
        args matches Some(a) ==> a@.len() == values@.len() && forall|i: int|
            0 <= i < values@.len() ==> values@[i] == Some(#[trigger] a@[i]),
{
    if values.len() != f.arity() {
        return None;
    }
    let mut args: Vec<i32> = Vec::new();
    let mut i: usize = 0;
    while i < values.len()
        invariant
            i <= values@.len(),
            args@.len() == i,
            forall|j: int| 0 <= j < i ==> values@[j] == Some(#[trigger] args@[j]),
            forall|j: int| 0 <= j < i ==> #[trigger] values@[j] is Some,
        decreases values@.len() - i,
    {
        match values[i] {
            Some(n) => args.push(n),
            None => return None,
        }
        i = i + 1;
    }
    Some(args)
}

/// The functions are those of the ABI and of the extension, by name and by type.
pub proof fn functions_are_those_of_the_abi(
    f: HostFn,
    name: &'static str,
    n: usize,
    params: Vec<WasmType>,
    result: Option<WasmType>,
)
    requires
        call_ensures(HostFn::name, (f,), name),
        call_ensures(HostFn::arity, (f,), n),
        call_ensures(HostFn::parameters, (f,), params),
        call_ensures(HostFn::result, (f,), result),
    ensures
        n == params@.len(),
        forall|i: int| 0 <= i < params@.len() ==> #[trigger] params@[i] == WasmType::I32,
        match f {
            HostFn::GetMethod => name@ == "get_method"@ && params@.len() == 2
                && result == Some(WasmType::I32),
            HostFn::SetMethod => name@ == "set_method"@ && params@.len() == 2 && result is None,
            HostFn::GetUri => name@ == "get_uri"@ && params@.len() == 2
                && result == Some(WasmType::I32),
            HostFn::SetUri => name@ == "set_uri"@ && params@.len() == 2 && result is None,
            HostFn::GetProtocolVersion => name@ == "get_protocol_version"@
                && params@.len() == 2 && result == Some(WasmType::I32),
            HostFn::GetSourceAddr => name@ == "get_source_addr"@ && params@.len() == 2
                && result == Some(WasmType::I32),
            HostFn::GetStatusCode => name@ == "get_status_code"@ && params@.len() == 0
                && result == Some(WasmType::I32),
            HostFn::SetStatusCode => name@ == "set_status_code"@ && params@.len() == 1
                && result is None,
            HostFn::GetHeaderNames => name@ == "get_header_names"@ && params@.len() == 3
                && result == Some(WasmType::I64),
            HostFn::GetHeaderValues => name@ == "get_header_values"@ && params@.len() == 5
                && result == Some(WasmType::I64),
            HostFn::SetHeaderValue => name@ == "set_header_value"@ && params@.len() == 5
                && result is None,
            HostFn::AddHeaderValue => name@ == "add_header_value"@ && params@.len() == 5
                && result is None,
            HostFn::RemoveHeader => name@ == "remove_header"@ && params@.len() == 3
                && result is None,
            HostFn::ReadBody => name@ == "read_body"@ && params@.len() == 3
                && result == Some(WasmType::I64),
            HostFn::WriteBody => name@ == "write_body"@ && params@.len() == 3 && result is None,
            HostFn::GetConfig => name@ == "get_config"@ && params@.len() == 2
                && result == Some(WasmType::I32),
            HostFn::EnableFeatures => name@ == "enable_features"@ && params@.len() == 1
                && result == Some(WasmType::I32),
            HostFn::Log => name@ == "log"@ && params@.len() == 3 && result is None,
            HostFn::LogEnabled => name@ == "log_enabled"@ && params@.len() == 1
                && result == Some(WasmType::I32),
            HostFn::HttpFetch => name@ == "http_fetch"@ && params@.len() == 4
                && result == Some(WasmType::I64),
            HostFn::HttpSend => name@ == "http_send"@ && params@.len() == 2
                && result == Some(WasmType::I32),
        },
{
}

/// The values that a guest passed are arguments exactly if they are as many `i32` as
/// the function takes, and they are these.
pub proof fn which_values_are_arguments(
    f: HostFn,
    n: usize,
    values: &[Option<i32>],
    args: Option<Vec<i32>>,
)
    requires
        call_ensures(HostFn::arity, (f,), n),
        call_ensures(arguments_of, (f, values), args),
    ensures
        args is Some <==> values@.len() == n && forall|i: int|
            0 <= i < values@.len() ==> #[trigger] values@[i] is Some,
        args matches Some(a) ==> a@.len() == n && forall|i: int|
            0 <= i < n ==> Some(#[trigger] a@[i]) == values@[i],
{
}

/// There is each function of the ABI once, and each function of the extension once if
/// there is something behind it.
pub proof fn which_functions_there_are(fetch: bool, send: bool, functions: Vec<HostFn>, f: HostFn)
    requires
        call_ensures(host_functions, (fetch, send), functions),
    ensures
        functions@.no_duplicates(),
        functions@.contains(f) == match f {
            HostFn::HttpFetch => fetch,
            HostFn::HttpSend => send,
            _ => true,
        },
{
    available_once(fetch, send);
    available_functions(fetch, send, f);
}

} // verus!
