//! The kinds of tokens and nodes of the syntax tree.
//!
//! The token kinds follow the `Token` enum of the Postgres scanner, in its
//! order and with its numbers; the node kinds are the statements that the
//! statement-start table recognises.
use vstd::prelude::*;

verus! {

/// The kind of a token or of a node of the syntax tree.
#[derive(Clone, Copy, Debug, PartialEq, Eq, Hash, Structural)]
pub enum SyntaxKind {
    /// The root of a source file.
    SourceFile,
    /// A statement whose syntax tree is unknown.
    Stmt,
    /// A run of spaces.
    Whitespace,
    /// A line break.
    Newline,
    /// A tab.
    Tab,
    /// A word the statement lexer does not classify further.
    Word,
    /// The end of the token stream.
    Eof,
    /// Scanner token `NUL` (0).
    Nul,
    /// Scanner token `ASCII_36` (36).
    Ascii36,
    /// Scanner token `ASCII_37` (37).
    Ascii37,
    /// Scanner token `ASCII_40` (40).
    Ascii40,
    /// Scanner token `ASCII_41` (41).
    Ascii41,
    /// Scanner token `ASCII_42` (42).
    Ascii42,
    /// Scanner token `ASCII_43` (43).
    Ascii43,
    /// Scanner token `ASCII_44` (44).
    Ascii44,
    /// Scanner token `ASCII_45` (45).
    Ascii45,
    /// Scanner token `ASCII_46` (46).
    Ascii46,
    /// Scanner token `ASCII_47` (47).
    Ascii47,
    /// Scanner token `ASCII_58` (58).
    Ascii58,
    /// Scanner token `ASCII_59` (59).
    Ascii59,
    /// Scanner token `ASCII_60` (60).
    Ascii60,
    /// Scanner token `ASCII_61` (61).
    Ascii61,
    /// Scanner token `ASCII_62` (62).
    Ascii62,
    /// Scanner token `ASCII_63` (63).
    Ascii63,
    /// Scanner token `ASCII_91` (91).
    Ascii91,
    /// Scanner token `ASCII_92` (92).
    Ascii92,
    /// Scanner token `ASCII_93` (93).
    Ascii93,
    /// Scanner token `ASCII_94` (94).
    Ascii94,
    /// Scanner token `IDENT` (258).
    Ident,
    /// Scanner token `UIDENT` (259).
    Uident,
    /// Scanner token `FCONST` (260).
    Fconst,
    /// Scanner token `SCONST` (261).
    Sconst,
    /// Scanner token `USCONST` (262).
    Usconst,
    /// Scanner token `BCONST` (263).
    Bconst,
    /// Scanner token `XCONST` (264).
    Xconst,
    /// Scanner token `Op` (265).
    Op,
    /// Scanner token `ICONST` (266).
    Iconst,
    /// Scanner token `PARAM` (267).
    Param,
    /// Scanner token `TYPECAST` (268).
    Typecast,
    /// Scanner token `DOT_DOT` (269).
    DotDot,
    /// Scanner token `COLON_EQUALS` (270).
    ColonEquals,
    /// Scanner token `EQUALS_GREATER` (271).
    EqualsGreater,
    /// Scanner token `LESS_EQUALS` (272).
    LessEquals,
    /// Scanner token `GREATER_EQUALS` (273).
    GreaterEquals,
    /// Scanner token `NOT_EQUALS` (274).
    NotEquals,
    /// Scanner token `SQL_COMMENT` (275).
    SqlComment,
    /// Scanner token `C_COMMENT` (276).
    CComment,
    /// Scanner token `ABORT_P` (277).
    AbortP,
    /// Scanner token `ABSENT` (278).
    Absent,
    /// Scanner token `ABSOLUTE_P` (279).
    AbsoluteP,
    /// Scanner token `ACCESS` (280).
    Access,
    /// Scanner token `ACTION` (281).
    Action,
    /// Scanner token `ADD_P` (282).
    AddP,
    /// Scanner token `ADMIN` (283).
    Admin,
    /// Scanner token `AFTER` (284).
    After,
    /// Scanner token `AGGREGATE` (285).
    Aggregate,
    /// Scanner token `ALL` (286).
    All,
    /// Scanner token `ALSO` (287).
    Also,
    /// Scanner token `ALTER` (288).
    Alter,
    /// Scanner token `ALWAYS` (289).
    Always,
    /// Scanner token `ANALYSE` (290).
    Analyse,
    /// Scanner token `ANALYZE` (291).
    Analyze,
    /// Scanner token `AND` (292).
    And,
    /// Scanner token `ANY` (293).
    Any,
    /// Scanner token `ARRAY` (294).
    Array,
    /// Scanner token `AS` (295).
    As,
    /// Scanner token `ASC` (296).
    Asc,
    /// Scanner token `ASENSITIVE` (297).
    Asensitive,
    /// Scanner token `ASSERTION` (298).
    Assertion,
    /// Scanner token `ASSIGNMENT` (299).
    Assignment,
    /// Scanner token `ASYMMETRIC` (300).
    Asymmetric,
    /// Scanner token `ATOMIC` (301).
    Atomic,
    /// Scanner token `AT` (302).
    At,
    /// Scanner token `ATTACH` (303).
    Attach,
    /// Scanner token `ATTRIBUTE` (304).
    Attribute,
    /// Scanner token `AUTHORIZATION` (305).
    Authorization,
    /// Scanner token `BACKWARD` (306).
    Backward,
    /// Scanner token `BEFORE` (307).
    Before,
    /// Scanner token `BEGIN_P` (308).
    BeginP,
    /// Scanner token `BETWEEN` (309).
    Between,
    /// Scanner token `BIGINT` (310).
    Bigint,
    /// Scanner token `BINARY` (311).
    Binary,
    /// Scanner token `BIT` (312).
    Bit,
    /// Scanner token `BOOLEAN_P` (313).
    BooleanP,
    /// Scanner token `BOTH` (314).
    Both,
    /// Scanner token `BREADTH` (315).
    Breadth,
    /// Scanner token `BY` (316).
    By,
    /// Scanner token `CACHE` (317).
    Cache,
    /// Scanner token `CALL` (318).
    Call,
    /// Scanner token `CALLED` (319).
    Called,
    /// Scanner token `CASCADE` (320).
    Cascade,
    /// Scanner token `CASCADED` (321).
    Cascaded,
    /// Scanner token `CASE` (322).
    Case,
    /// Scanner token `CAST` (323).
    Cast,
    /// Scanner token `CATALOG_P` (324).
    CatalogP,
    /// Scanner token `CHAIN` (325).
    Chain,
    /// Scanner token `CHAR_P` (326).
    CharP,
    /// Scanner token `CHARACTER` (327).
    Character,
    /// Scanner token `CHARACTERISTICS` (328).
    Characteristics,
    /// Scanner token `CHECK` (329).
    Check,
    /// Scanner token `CHECKPOINT` (330).
    Checkpoint,
    /// Scanner token `CLASS` (331).
    Class,
    /// Scanner token `CLOSE` (332).
    Close,
    /// Scanner token `CLUSTER` (333).
    Cluster,
    /// Scanner token `COALESCE` (334).
    Coalesce,
    /// Scanner token `COLLATE` (335).
    Collate,
    /// Scanner token `COLLATION` (336).
    Collation,
    /// Scanner token `COLUMN` (337).
    Column,
    /// Scanner token `COLUMNS` (338).
    Columns,
    /// Scanner token `COMMENT` (339).
    Comment,
    /// Scanner token `COMMENTS` (340).
    Comments,
    /// Scanner token `COMMIT` (341).
    Commit,
    /// Scanner token `COMMITTED` (342).
    Committed,
    /// Scanner token `COMPRESSION` (343).
    Compression,
    /// Scanner token `CONCURRENTLY` (344).
    Concurrently,
    /// Scanner token `CONDITIONAL` (345).
    Conditional,
    /// Scanner token `CONFIGURATION` (346).
    Configuration,
    /// Scanner token `CONFLICT` (347).
    Conflict,
    /// Scanner token `CONNECTION` (348).
    Connection,
    /// Scanner token `CONSTRAINT` (349).
    Constraint,
    /// Scanner token `CONSTRAINTS` (350).
    Constraints,
    /// Scanner token `CONTENT_P` (351).
    ContentP,
    /// Scanner token `CONTINUE_P` (352).
    ContinueP,
    /// Scanner token `CONVERSION_P` (353).
    ConversionP,
    /// Scanner token `COPY` (354).
    Copy,
    /// Scanner token `COST` (355).
    Cost,
    /// Scanner token `CREATE` (356).
    Create,
    /// Scanner token `CROSS` (357).
    Cross,
    /// Scanner token `CSV` (358).
    Csv,
    /// Scanner token `CUBE` (359).
    Cube,
    /// Scanner token `CURRENT_P` (360).
    CurrentP,
    /// Scanner token `CURRENT_CATALOG` (361).
    CurrentCatalog,
    /// Scanner token `CURRENT_DATE` (362).
    CurrentDate,
    /// Scanner token `CURRENT_ROLE` (363).
    CurrentRole,
    /// Scanner token `CURRENT_SCHEMA` (364).
    CurrentSchema,
    /// Scanner token `CURRENT_TIME` (365).
    CurrentTime,
    /// Scanner token `CURRENT_TIMESTAMP` (366).
    CurrentTimestamp,
    /// Scanner token `CURRENT_USER` (367).
    CurrentUser,
    /// Scanner token `CURSOR` (368).
    Cursor,
    /// Scanner token `CYCLE` (369).
    Cycle,
    /// Scanner token `DATA_P` (370).
    DataP,
    /// Scanner token `DATABASE` (371).
    Database,
    /// Scanner token `DAY_P` (372).
    DayP,
    /// Scanner token `DEALLOCATE` (373).
    Deallocate,
    /// Scanner token `DEC` (374).
    Dec,
    /// Scanner token `DECIMAL_P` (375).
    DecimalP,
    /// Scanner token `DECLARE` (376).
    Declare,
    /// Scanner token `DEFAULT` (377).
    Default,
    /// Scanner token `DEFAULTS` (378).
    Defaults,
    /// Scanner token `DEFERRABLE` (379).
    Deferrable,
    /// Scanner token `DEFERRED` (380).
    Deferred,
    /// Scanner token `DEFINER` (381).
    Definer,
    /// Scanner token `DELETE_P` (382).
    DeleteP,
    /// Scanner token `DELIMITER` (383).
    Delimiter,
    /// Scanner token `DELIMITERS` (384).
    Delimiters,
    /// Scanner token `DEPENDS` (385).
    Depends,
    /// Scanner token `DEPTH` (386).
    Depth,
    /// Scanner token `DESC` (387).
    Desc,
    /// Scanner token `DETACH` (388).
    Detach,
    /// Scanner token `DICTIONARY` (389).
    Dictionary,
    /// Scanner token `DISABLE_P` (390).
    DisableP,
    /// Scanner token `DISCARD` (391).
    Discard,
    /// Scanner token `DISTINCT` (392).
    Distinct,
    /// Scanner token `DO` (393).
    Do,
    /// Scanner token `DOCUMENT_P` (394).
    DocumentP,
    /// Scanner token `DOMAIN_P` (395).
    DomainP,
    /// Scanner token `DOUBLE_P` (396).
    DoubleP,
    /// Scanner token `DROP` (397).
    Drop,
    /// Scanner token `EACH` (398).
    Each,
    /// Scanner token `ELSE` (399).
    Else,
    /// Scanner token `EMPTY_P` (400).
    EmptyP,
    /// Scanner token `ENABLE_P` (401).
    EnableP,
    /// Scanner token `ENCODING` (402).
    Encoding,
    /// Scanner token `ENCRYPTED` (403).
    Encrypted,
    /// Scanner token `END_P` (404).
    EndP,
    /// Scanner token `ENFORCED` (405).
    Enforced,
    /// Scanner token `ENUM_P` (406).
    EnumP,
    /// Scanner token `ERROR_P` (407).
    ErrorP,
    /// Scanner token `ESCAPE` (408).
    Escape,
    /// Scanner token `EVENT` (409).
    Event,
    /// Scanner token `EXCEPT` (410).
    Except,
    /// Scanner token `EXCLUDE` (411).
    Exclude,
    /// Scanner token `EXCLUDING` (412).
    Excluding,
    /// Scanner token `EXCLUSIVE` (413).
    Exclusive,
    /// Scanner token `EXECUTE` (414).
    Execute,
    /// Scanner token `EXISTS` (415).
    Exists,
    /// Scanner token `EXPLAIN` (416).
    Explain,
    /// Scanner token `EXPRESSION` (417).
    Expression,
    /// Scanner token `EXTENSION` (418).
    Extension,
    /// Scanner token `EXTERNAL` (419).
    External,
    /// Scanner token `EXTRACT` (420).
    Extract,
    /// Scanner token `FALSE_P` (421).
    FalseP,
    /// Scanner token `FAMILY` (422).
    Family,
    /// Scanner token `FETCH` (423).
    Fetch,
    /// Scanner token `FILTER` (424).
    Filter,
    /// Scanner token `FINALIZE` (425).
    Finalize,
    /// Scanner token `FIRST_P` (426).
    FirstP,
    /// Scanner token `FLOAT_P` (427).
    FloatP,
    /// Scanner token `FOLLOWING` (428).
    Following,
    /// Scanner token `FOR` (429).
    For,
    /// Scanner token `FORCE` (430).
    Force,
    /// Scanner token `FOREIGN` (431).
    Foreign,
    /// Scanner token `FORMAT` (432).
    Format,
    /// Scanner token `FORWARD` (433).
    Forward,
    /// Scanner token `FREEZE` (434).
    Freeze,
    /// Scanner token `FROM` (435).
    From,
    /// Scanner token `FULL` (436).
    Full,
    /// Scanner token `FUNCTION` (437).
    Function,
    /// Scanner token `FUNCTIONS` (438).
    Functions,
    /// Scanner token `GENERATED` (439).
    Generated,
    /// Scanner token `GLOBAL` (440).
    Global,
    /// Scanner token `GRANT` (441).
    Grant,
    /// Scanner token `GRANTED` (442).
    Granted,
    /// Scanner token `GREATEST` (443).
    Greatest,
    /// Scanner token `GROUP_P` (444).
    GroupP,
    /// Scanner token `GROUPING` (445).
    Grouping,
    /// Scanner token `GROUPS` (446).
    Groups,
    /// Scanner token `HANDLER` (447).
    Handler,
    /// Scanner token `HAVING` (448).
    Having,
    /// Scanner token `HEADER_P` (449).
    HeaderP,
    /// Scanner token `HOLD` (450).
    Hold,
    /// Scanner token `HOUR_P` (451).
    HourP,
    /// Scanner token `IDENTITY_P` (452).
    IdentityP,
    /// Scanner token `IF_P` (453).
    IfP,
    /// Scanner token `ILIKE` (454).
    Ilike,
    /// Scanner token `IMMEDIATE` (455).
    Immediate,
    /// Scanner token `IMMUTABLE` (456).
    Immutable,
    /// Scanner token `IMPLICIT_P` (457).
    ImplicitP,
    /// Scanner token `IMPORT_P` (458).
    ImportP,
    /// Scanner token `IN_P` (459).
    InP,
    /// Scanner token `INCLUDE` (460).
    Include,
    /// Scanner token `INCLUDING` (461).
    Including,
    /// Scanner token `INCREMENT` (462).
    Increment,
    /// Scanner token `INDENT` (463).
    Indent,
    /// Scanner token `INDEX` (464).
    Index,
    /// Scanner token `INDEXES` (465).
    Indexes,
    /// Scanner token `INHERIT` (466).
    Inherit,
    /// Scanner token `INHERITS` (467).
    Inherits,
    /// Scanner token `INITIALLY` (468).
    Initially,
    /// Scanner token `INLINE_P` (469).
    InlineP,
    /// Scanner token `INNER_P` (470).
    InnerP,
    /// Scanner token `INOUT` (471).
    Inout,
    /// Scanner token `INPUT_P` (472).
    InputP,
    /// Scanner token `INSENSITIVE` (473).
    Insensitive,
    /// Scanner token `INSERT` (474).
    Insert,
    /// Scanner token `INSTEAD` (475).
    Instead,
    /// Scanner token `INT_P` (476).
    IntP,
    /// Scanner token `INTEGER` (477).
    Integer,
    /// Scanner token `INTERSECT` (478).
    Intersect,
    /// Scanner token `INTERVAL` (479).
    Interval,
    /// Scanner token `INTO` (480).
    Into,
    /// Scanner token `INVOKER` (481).
    Invoker,
    /// Scanner token `IS` (482).
    Is,
    /// Scanner token `ISNULL` (483).
    Isnull,
    /// Scanner token `ISOLATION` (484).
    Isolation,
    /// Scanner token `JOIN` (485).
    Join,
    /// Scanner token `JSON` (486).
    Json,
    /// Scanner token `JSON_ARRAY` (487).
    JsonArray,
    /// Scanner token `JSON_ARRAYAGG` (488).
    JsonArrayagg,
    /// Scanner token `JSON_EXISTS` (489).
    JsonExists,
    /// Scanner token `JSON_OBJECT` (490).
    JsonObject,
    /// Scanner token `JSON_OBJECTAGG` (491).
    JsonObjectagg,
    /// Scanner token `JSON_QUERY` (492).
    JsonQuery,
    /// Scanner token `JSON_SCALAR` (493).
    JsonScalar,
    /// Scanner token `JSON_SERIALIZE` (494).
    JsonSerialize,
    /// Scanner token `JSON_TABLE` (495).
    JsonTable,
    /// Scanner token `JSON_VALUE` (496).
    JsonValue,
    /// Scanner token `KEEP` (497).
    Keep,
    /// Scanner token `KEY` (498).
    Key,
    /// Scanner token `KEYS` (499).
    Keys,
    /// Scanner token `LABEL` (500).
    Label,
    /// Scanner token `LANGUAGE` (501).
    Language,
    /// Scanner token `LARGE_P` (502).
    LargeP,
    /// Scanner token `LAST_P` (503).
    LastP,
    /// Scanner token `LATERAL_P` (504).
    LateralP,
    /// Scanner token `LEADING` (505).
    Leading,
    /// Scanner token `LEAKPROOF` (506).
    Leakproof,
    /// Scanner token `LEAST` (507).
    Least,
    /// Scanner token `LEFT` (508).
    Left,
    /// Scanner token `LEVEL` (509).
    Level,
    /// Scanner token `LIKE` (510).
    Like,
    /// Scanner token `LIMIT` (511).
    Limit,
    /// Scanner token `LISTEN` (512).
    Listen,
    /// Scanner token `LOAD` (513).
    Load,
    /// Scanner token `LOCAL` (514).
    Local,
    /// Scanner token `LOCALTIME` (515).
    Localtime,
    /// Scanner token `LOCALTIMESTAMP` (516).
    Localtimestamp,
    /// Scanner token `LOCATION` (517).
    Location,
    /// Scanner token `LOCK_P` (518).
    LockP,
    /// Scanner token `LOCKED` (519).
    Locked,
    /// Scanner token `LOGGED` (520).
    Logged,
    /// Scanner token `MAPPING` (521).
    Mapping,
    /// Scanner token `MATCH` (522).
    Match,
    /// Scanner token `MATCHED` (523).
    Matched,
    /// Scanner token `MATERIALIZED` (524).
    Materialized,
    /// Scanner token `MAXVALUE` (525).
    Maxvalue,
    /// Scanner token `MERGE` (526).
    Merge,
    /// Scanner token `MERGE_ACTION` (527).
    MergeAction,
    /// Scanner token `METHOD` (528).
    Method,
    /// Scanner token `MINUTE_P` (529).
    MinuteP,
    /// Scanner token `MINVALUE` (530).
    Minvalue,
    /// Scanner token `MODE` (531).
    Mode,
    /// Scanner token `MONTH_P` (532).
    MonthP,
    /// Scanner token `MOVE` (533).
    Move,
    /// Scanner token `NAME_P` (534).
    NameP,
    /// Scanner token `NAMES` (535).
    Names,
    /// Scanner token `NATIONAL` (536).
    National,
    /// Scanner token `NATURAL` (537).
    Natural,
    /// Scanner token `NCHAR` (538).
    Nchar,
    /// Scanner token `NESTED` (539).
    Nested,
    /// Scanner token `NEW` (540).
    New,
    /// Scanner token `NEXT` (541).
    Next,
    /// Scanner token `NFC` (542).
    Nfc,
    /// Scanner token `NFD` (543).
    Nfd,
    /// Scanner token `NFKC` (544).
    Nfkc,
    /// Scanner token `NFKD` (545).
    Nfkd,
    /// Scanner token `NO` (546).
    No,
    /// Scanner token `NONE` (547).
    NoneKw,
    /// Scanner token `NORMALIZE` (548).
    Normalize,
    /// Scanner token `NORMALIZED` (549).
    Normalized,
    /// Scanner token `NOT` (550).
    Not,
    /// Scanner token `NOTHING` (551).
    Nothing,
    /// Scanner token `NOTIFY` (552).
    Notify,
    /// Scanner token `NOTNULL` (553).
    Notnull,
    /// Scanner token `NOWAIT` (554).
    Nowait,
    /// Scanner token `NULL_P` (555).
    NullP,
    /// Scanner token `NULLIF` (556).
    Nullif,
    /// Scanner token `NULLS_P` (557).
    NullsP,
    /// Scanner token `NUMERIC` (558).
    Numeric,
    /// Scanner token `OBJECT_P` (559).
    ObjectP,
    /// Scanner token `OBJECTS_P` (560).
    ObjectsP,
    /// Scanner token `OF` (561).
    Of,
    /// Scanner token `OFF` (562).
    Off,
    /// Scanner token `OFFSET` (563).
    Offset,
    /// Scanner token `OIDS` (564).
    Oids,
    /// Scanner token `OLD` (565).
    Old,
    /// Scanner token `OMIT` (566).
    Omit,
    /// Scanner token `ON` (567).
    On,
    /// Scanner token `ONLY` (568).
    Only,
    /// Scanner token `OPERATOR` (569).
    Operator,
    /// Scanner token `OPTION` (570).
    Option,
    /// Scanner token `OPTIONS` (571).
    Options,
    /// Scanner token `OR` (572).
    Or,
    /// Scanner token `ORDER` (573).
    Order,
    /// Scanner token `ORDINALITY` (574).
    Ordinality,
    /// Scanner token `OTHERS` (575).
    Others,
    /// Scanner token `OUT_P` (576).
    OutP,
    /// Scanner token `OUTER_P` (577).
    OuterP,
    /// Scanner token `OVER` (578).
    Over,
    /// Scanner token `OVERLAPS` (579).
    Overlaps,
    /// Scanner token `OVERLAY` (580).
    Overlay,
    /// Scanner token `OVERRIDING` (581).
    Overriding,
    /// Scanner token `OWNED` (582).
    Owned,
    /// Scanner token `OWNER` (583).
    Owner,
    /// Scanner token `PARALLEL` (584).
    Parallel,
    /// Scanner token `PARAMETER` (585).
    Parameter,
    /// Scanner token `PARSER` (586).
    Parser,
    /// Scanner token `PARTIAL` (587).
    Partial,
    /// Scanner token `PARTITION` (588).
    Partition,
    /// Scanner token `PASSING` (589).
    Passing,
    /// Scanner token `PASSWORD` (590).
    Password,
    /// Scanner token `PATH` (591).
    Path,
    /// Scanner token `PERIOD` (592).
    Period,
    /// Scanner token `PLACING` (593).
    Placing,
    /// Scanner token `PLAN` (594).
    Plan,
    /// Scanner token `PLANS` (595).
    Plans,
    /// Scanner token `POLICY` (596).
    Policy,
    /// Scanner token `POSITION` (597).
    Position,
    /// Scanner token `PRECEDING` (598).
    Preceding,
    /// Scanner token `PRECISION` (599).
    Precision,
    /// Scanner token `PRESERVE` (600).
    Preserve,
    /// Scanner token `PREPARE` (601).
    Prepare,
    /// Scanner token `PREPARED` (602).
    Prepared,
    /// Scanner token `PRIMARY` (603).
    Primary,
    /// Scanner token `PRIOR` (604).
    Prior,
    /// Scanner token `PRIVILEGES` (605).
    Privileges,
    /// Scanner token `PROCEDURAL` (606).
    Procedural,
    /// Scanner token `PROCEDURE` (607).
    Procedure,
    /// Scanner token `PROCEDURES` (608).
    Procedures,
    /// Scanner token `PROGRAM` (609).
    Program,
    /// Scanner token `PUBLICATION` (610).
    Publication,
    /// Scanner token `QUOTE` (611).
    Quote,
    /// Scanner token `QUOTES` (612).
    Quotes,
    /// Scanner token `RANGE` (613).
    Range,
    /// Scanner token `READ` (614).
    Read,
    /// Scanner token `REAL` (615).
    Real,
    /// Scanner token `REASSIGN` (616).
    Reassign,
    /// Scanner token `RECURSIVE` (617).
    Recursive,
    /// Scanner token `REF_P` (618).
    RefP,
    /// Scanner token `REFERENCES` (619).
    References,
    /// Scanner token `REFERENCING` (620).
    Referencing,
    /// Scanner token `REFRESH` (621).
    Refresh,
    /// Scanner token `REINDEX` (622).
    Reindex,
    /// Scanner token `RELATIVE_P` (623).
    RelativeP,
    /// Scanner token `RELEASE` (624).
    Release,
    /// Scanner token `RENAME` (625).
    Rename,
    /// Scanner token `REPEATABLE` (626).
    Repeatable,
    /// Scanner token `REPLACE` (627).
    Replace,
    /// Scanner token `REPLICA` (628).
    Replica,
    /// Scanner token `RESET` (629).
    Reset,
    /// Scanner token `RESTART` (630).
    Restart,
    /// Scanner token `RESTRICT` (631).
    Restrict,
    /// Scanner token `RETURN` (632).
    Return,
    /// Scanner token `RETURNING` (633).
    Returning,
    /// Scanner token `RETURNS` (634).
    Returns,
    /// Scanner token `REVOKE` (635).
    Revoke,
    /// Scanner token `RIGHT` (636).
    Right,
    /// Scanner token `ROLE` (637).
    Role,
    /// Scanner token `ROLLBACK` (638).
    Rollback,
    /// Scanner token `ROLLUP` (639).
    Rollup,
    /// Scanner token `ROUTINE` (640).
    Routine,
    /// Scanner token `ROUTINES` (641).
    Routines,
    /// Scanner token `ROW` (642).
    Row,
    /// Scanner token `ROWS` (643).
    Rows,
    /// Scanner token `RULE` (644).
    Rule,
    /// Scanner token `SAVEPOINT` (645).
    Savepoint,
    /// Scanner token `SCALAR` (646).
    Scalar,
    /// Scanner token `SCHEMA` (647).
    Schema,
    /// Scanner token `SCHEMAS` (648).
    Schemas,
    /// Scanner token `SCROLL` (649).
    Scroll,
    /// Scanner token `SEARCH` (650).
    Search,
    /// Scanner token `SECOND_P` (651).
    SecondP,
    /// Scanner token `SECURITY` (652).
    Security,
    /// Scanner token `SELECT` (653).
    Select,
    /// Scanner token `SEQUENCE` (654).
    Sequence,
    /// Scanner token `SEQUENCES` (655).
    Sequences,
    /// Scanner token `SERIALIZABLE` (656).
    Serializable,
    /// Scanner token `SERVER` (657).
    Server,
    /// Scanner token `SESSION` (658).
    Session,
    /// Scanner token `SESSION_USER` (659).
    SessionUser,
    /// Scanner token `SET` (660).
    SetKw,
    /// Scanner token `SETS` (661).
    Sets,
    /// Scanner token `SETOF` (662).
    Setof,
    /// Scanner token `SHARE` (663).
    Share,
    /// Scanner token `SHOW` (664).
    Show,
    /// Scanner token `SIMILAR` (665).
    Similar,
    /// Scanner token `SIMPLE` (666).
    Simple,
    /// Scanner token `SKIP` (667).
    Skip,
    /// Scanner token `SMALLINT` (668).
    Smallint,
    /// Scanner token `SNAPSHOT` (669).
    Snapshot,
    /// Scanner token `SOME` (670).
    SomeKw,
    /// Scanner token `SOURCE` (671).
    Source,
    /// Scanner token `SQL_P` (672).
    SqlP,
    /// Scanner token `STABLE` (673).
    Stable,
    /// Scanner token `STANDALONE_P` (674).
    StandaloneP,
    /// Scanner token `START` (675).
    Start,
    /// Scanner token `STATEMENT` (676).
    Statement,
    /// Scanner token `STATISTICS` (677).
    Statistics,
    /// Scanner token `STDIN` (678).
    Stdin,
    /// Scanner token `STDOUT` (679).
    Stdout,
    /// Scanner token `STORAGE` (680).
    Storage,
    /// Scanner token `STORED` (681).
    Stored,
    /// Scanner token `STRICT_P` (682).
    StrictP,
    /// Scanner token `STRING_P` (683).
    StringP,
    /// Scanner token `STRIP_P` (684).
    StripP,
    /// Scanner token `SUBSCRIPTION` (685).
    Subscription,
    /// Scanner token `SUBSTRING` (686).
    Substring,
    /// Scanner token `SUPPORT` (687).
    Support,
    /// Scanner token `SYMMETRIC` (688).
    Symmetric,
    /// Scanner token `SYSID` (689).
    Sysid,
    /// Scanner token `SYSTEM_P` (690).
    SystemP,
    /// Scanner token `SYSTEM_USER` (691).
    SystemUser,
    /// Scanner token `TABLE` (692).
    Table,
    /// Scanner token `TABLES` (693).
    Tables,
    /// Scanner token `TABLESAMPLE` (694).
    Tablesample,
    /// Scanner token `TABLESPACE` (695).
    Tablespace,
    /// Scanner token `TARGET` (696).
    Target,
    /// Scanner token `TEMP` (697).
    Temp,
    /// Scanner token `TEMPLATE` (698).
    Template,
    /// Scanner token `TEMPORARY` (699).
    Temporary,
    /// Scanner token `TEXT_P` (700).
    TextP,
    /// Scanner token `THEN` (701).
    Then,
    /// Scanner token `TIES` (702).
    Ties,
    /// Scanner token `TIME` (703).
    Time,
    /// Scanner token `TIMESTAMP` (704).
    Timestamp,
    /// Scanner token `TO` (705).
    To,
    /// Scanner token `TRAILING` (706).
    Trailing,
    /// Scanner token `TRANSACTION` (707).
    Transaction,
    /// Scanner token `TRANSFORM` (708).
    Transform,
    /// Scanner token `TREAT` (709).
    Treat,
    /// Scanner token `TRIGGER` (710).
    Trigger,
    /// Scanner token `TRIM` (711).
    Trim,
    /// Scanner token `TRUE_P` (712).
    TrueP,
    /// Scanner token `TRUNCATE` (713).
    Truncate,
    /// Scanner token `TRUSTED` (714).
    Trusted,
    /// Scanner token `TYPE_P` (715).
    TypeP,
    /// Scanner token `TYPES_P` (716).
    TypesP,
    /// Scanner token `UESCAPE` (717).
    Uescape,
    /// Scanner token `UNBOUNDED` (718).
    Unbounded,
    /// Scanner token `UNCONDITIONAL` (719).
    Unconditional,
    /// Scanner token `UNCOMMITTED` (720).
    Uncommitted,
    /// Scanner token `UNENCRYPTED` (721).
    Unencrypted,
    /// Scanner token `UNION` (722).
    Union,
    /// Scanner token `UNIQUE` (723).
    Unique,
    /// Scanner token `UNKNOWN` (724).
    Unknown,
    /// Scanner token `UNLISTEN` (725).
    Unlisten,
    /// Scanner token `UNLOGGED` (726).
    Unlogged,
    /// Scanner token `UNTIL` (727).
    Until,
    /// Scanner token `UPDATE` (728).
    Update,
    /// Scanner token `USER` (729).
    User,
    /// Scanner token `USING` (730).
    Using,
    /// Scanner token `VACUUM` (731).
    Vacuum,
    /// Scanner token `VALID` (732).
    Valid,
    /// Scanner token `VALIDATE` (733).
    Validate,
    /// Scanner token `VALIDATOR` (734).
    Validator,
    /// Scanner token `VALUE_P` (735).
    ValueP,
    /// Scanner token `VALUES` (736).
    Values,
    /// Scanner token `VARCHAR` (737).
    Varchar,
    /// Scanner token `VARIADIC` (738).
    Variadic,
    /// Scanner token `VARYING` (739).
    Varying,
    /// Scanner token `VERBOSE` (740).
    Verbose,
    /// Scanner token `VERSION_P` (741).
    VersionP,
    /// Scanner token `VIEW` (742).
    View,
    /// Scanner token `VIEWS` (743).
    Views,
    /// Scanner token `VIRTUAL` (744).
    Virtual,
    /// Scanner token `VOLATILE` (745).
    Volatile,
    /// Scanner token `WHEN` (746).
    When,
    /// Scanner token `WHERE` (747).
    Where,
    /// Scanner token `WHITESPACE_P` (748).
    WhitespaceP,
    /// Scanner token `WINDOW` (749).
    Window,
    /// Scanner token `WITH` (750).
    With,
    /// Scanner token `WITHIN` (751).
    Within,
    /// Scanner token `WITHOUT` (752).
    Without,
    /// Scanner token `WORK` (753).
    Work,
    /// Scanner token `WRAPPER` (754).
    Wrapper,
    /// Scanner token `WRITE` (755).
    Write,
    /// Scanner token `XML_P` (756).
    XmlP,
    /// Scanner token `XMLATTRIBUTES` (757).
    Xmlattributes,
    /// Scanner token `XMLCONCAT` (758).
    Xmlconcat,
    /// Scanner token `XMLELEMENT` (759).
    Xmlelement,
    /// Scanner token `XMLEXISTS` (760).
    Xmlexists,
    /// Scanner token `XMLFOREST` (761).
    Xmlforest,
    /// Scanner token `XMLNAMESPACES` (762).
    Xmlnamespaces,
    /// Scanner token `XMLPARSE` (763).
    Xmlparse,
    /// Scanner token `XMLPI` (764).
    Xmlpi,
    /// Scanner token `XMLROOT` (765).
    Xmlroot,
    /// Scanner token `XMLSERIALIZE` (766).
    Xmlserialize,
    /// Scanner token `XMLTABLE` (767).
    Xmltable,
    /// Scanner token `YEAR_P` (768).
    YearP,
    /// Scanner token `YES_P` (769).
    YesP,
    /// Scanner token `ZONE` (770).
    Zone,
    /// Scanner token `FORMAT_LA` (771).
    FormatLa,
    /// Scanner token `NOT_LA` (772).
    NotLa,
    /// Scanner token `NULLS_LA` (773).
    NullsLa,
    /// Scanner token `WITH_LA` (774).
    WithLa,
    /// Scanner token `WITHOUT_LA` (775).
    WithoutLa,
    /// Scanner token `MODE_TYPE_NAME` (776).
    ModeTypeName,
    /// Scanner token `MODE_PLPGSQL_EXPR` (777).
    ModePlpgsqlExpr,
    /// Scanner token `MODE_PLPGSQL_ASSIGN1` (778).
    ModePlpgsqlAssign1,
    /// Scanner token `MODE_PLPGSQL_ASSIGN2` (779).
    ModePlpgsqlAssign2,
    /// Scanner token `MODE_PLPGSQL_ASSIGN3` (780).
    ModePlpgsqlAssign3,
    /// Scanner token `UMINUS` (781).
    Uminus,
    AlterCollationStmt,
    AlterDatabaseRefreshCollStmt,
    AlterDatabaseSetStmt,
    AlterDatabaseStmt,
    AlterDefaultPrivilegesStmt,
    AlterDomainStmt,
    AlterEventTrigStmt,
    AlterExtensionStmt,
    AlterFdwStmt,
    AlterForeignServerStmt,
    AlterFunctionStmt,
    AlterOpFamilyStmt,
    AlterOperatorStmt,
    AlterPolicyStmt,
    AlterPublicationStmt,
    AlterRoleStmt,
    AlterSeqStmt,
    AlterStatsStmt,
    AlterSubscriptionStmt,
    AlterSystemStmt,
    AlterTableStmt,
    AlterTypeStmt,
    AlterUserMappingStmt,
    CallStmt,
    CheckPointStmt,
    ClusterStmt,
    CommentStmt,
    ConstraintsSetStmt,
    CopyStmt,
    CreateAmStmt,
    CreateCastStmt,
    CreateConversionStmt,
    CreateDomainStmt,
    CreateEnumStmt,
    CreateEventTrigStmt,
    CreateExtensionStmt,
    CreateFdwStmt,
    CreateForeignServerStmt,
    CreateForeignTableStmt,
    CreateFunctionStmt,
    CreateOpClassStmt,
    CreateOpFamilyStmt,
    CreatePolicyStmt,
    CreatePublicationStmt,
    CreateRangeStmt,
    CreateRoleStmt,
    CreateSchemaStmt,
    CreateSeqStmt,
    CreateStatsStmt,
    CreateStmt,
    CreateSubscriptionStmt,
    CreateTableAsStmt,
    CreateTableSpaceStmt,
    CreateTransformStmt,
    CreateTrigStmt,
    CreateUserMappingStmt,
    CreatedbStmt,
    DeallocateStmt,
    DefineStmt,
    DeleteStmt,
    DiscardStmt,
    DoStmt,
    DropOwnedStmt,
    DropRoleStmt,
    DropStmt,
    DropSubscriptionStmt,
    DropTableSpaceStmt,
    DropUserMappingStmt,
    DropdbStmt,
    ExecuteStmt,
    ExplainStmt,
    FetchStmt,
    ImportForeignSchemaStmt,
    IndexStmt,
    InsertStmt,
    ListenStmt,
    LoadStmt,
    LockStmt,
    MergeStmt,
    NotifyStmt,
    PrepareStmt,
    ReassignOwnedStmt,
    RefreshMatViewStmt,
    ReindexStmt,
    RenameStmt,
    RuleStmt,
    SecLabelStmt,
    SelectStmt,
    TransactionStmt,
    TruncateStmt,
    UnlistenStmt,
    UpdateStmt,
    VacuumStmt,
    VariableSetStmt,
    VariableShowStmt,
    ViewStmt,
}

/// The kind of the scanner token numbered `n`, if there is one.
pub open spec fn token_kind(n: i32) -> Option<SyntaxKind> {
    match n {
        0i32 => Some(SyntaxKind::Nul),
        36i32 => Some(SyntaxKind::Ascii36),
        37i32 => Some(SyntaxKind::Ascii37),
        40i32 => Some(SyntaxKind::Ascii40),
        41i32 => Some(SyntaxKind::Ascii41),
        42i32 => Some(SyntaxKind::Ascii42),
        43i32 => Some(SyntaxKind::Ascii43),
        44i32 => Some(SyntaxKind::Ascii44),
        45i32 => Some(SyntaxKind::Ascii45),
        46i32 => Some(SyntaxKind::Ascii46),
        47i32 => Some(SyntaxKind::Ascii47),
        58i32 => Some(SyntaxKind::Ascii58),
        59i32 => Some(SyntaxKind::Ascii59),
        60i32 => Some(SyntaxKind::Ascii60),
        61i32 => Some(SyntaxKind::Ascii61),
        62i32 => Some(SyntaxKind::Ascii62),
        63i32 => Some(SyntaxKind::Ascii63),
        91i32 => Some(SyntaxKind::Ascii91),
        92i32 => Some(SyntaxKind::Ascii92),
        93i32 => Some(SyntaxKind::Ascii93),
        94i32 => Some(SyntaxKind::Ascii94),
        258i32 => Some(SyntaxKind::Ident),
        259i32 => Some(SyntaxKind::Uident),
        260i32 => Some(SyntaxKind::Fconst),
        261i32 => Some(SyntaxKind::Sconst),
        262i32 => Some(SyntaxKind::Usconst),
        263i32 => Some(SyntaxKind::Bconst),
        264i32 => Some(SyntaxKind::Xconst),
        265i32 => Some(SyntaxKind::Op),
        266i32 => Some(SyntaxKind::Iconst),
        267i32 => Some(SyntaxKind::Param),
        268i32 => Some(SyntaxKind::Typecast),
        269i32 => Some(SyntaxKind::DotDot),
        270i32 => Some(SyntaxKind::ColonEquals),
        271i32 => Some(SyntaxKind::EqualsGreater),
        272i32 => Some(SyntaxKind::LessEquals),
        273i32 => Some(SyntaxKind::GreaterEquals),
        274i32 => Some(SyntaxKind::NotEquals),
        275i32 => Some(SyntaxKind::SqlComment),
        276i32 => Some(SyntaxKind::CComment),
        277i32 => Some(SyntaxKind::AbortP),
        278i32 => Some(SyntaxKind::Absent),
        279i32 => Some(SyntaxKind::AbsoluteP),
        280i32 => Some(SyntaxKind::Access),
        281i32 => Some(SyntaxKind::Action),
        282i32 => Some(SyntaxKind::AddP),
        283i32 => Some(SyntaxKind::Admin),
        284i32 => Some(SyntaxKind::After),
        285i32 => Some(SyntaxKind::Aggregate),
        286i32 => Some(SyntaxKind::All),
        287i32 => Some(SyntaxKind::Also),
        288i32 => Some(SyntaxKind::Alter),
        289i32 => Some(SyntaxKind::Always),
        290i32 => Some(SyntaxKind::Analyse),
        291i32 => Some(SyntaxKind::Analyze),
        292i32 => Some(SyntaxKind::And),
        293i32 => Some(SyntaxKind::Any),
        294i32 => Some(SyntaxKind::Array),
        295i32 => Some(SyntaxKind::As),
        296i32 => Some(SyntaxKind::Asc),
        297i32 => Some(SyntaxKind::Asensitive),
        298i32 => Some(SyntaxKind::Assertion),
        299i32 => Some(SyntaxKind::Assignment),
        300i32 => Some(SyntaxKind::Asymmetric),
        301i32 => Some(SyntaxKind::Atomic),
        302i32 => Some(SyntaxKind::At),
        303i32 => Some(SyntaxKind::Attach),
        304i32 => Some(SyntaxKind::Attribute),
        305i32 => Some(SyntaxKind::Authorization),
        306i32 => Some(SyntaxKind::Backward),
        307i32 => Some(SyntaxKind::Before),
        308i32 => Some(SyntaxKind::BeginP),
        309i32 => Some(SyntaxKind::Between),
        310i32 => Some(SyntaxKind::Bigint),
        311i32 => Some(SyntaxKind::Binary),
        312i32 => Some(SyntaxKind::Bit),
        313i32 => Some(SyntaxKind::BooleanP),
        314i32 => Some(SyntaxKind::Both),
        315i32 => Some(SyntaxKind::Breadth),
        316i32 => Some(SyntaxKind::By),
        317i32 => Some(SyntaxKind::Cache),
        318i32 => Some(SyntaxKind::Call),
        319i32 => Some(SyntaxKind::Called),
        320i32 => Some(SyntaxKind::Cascade),
        321i32 => Some(SyntaxKind::Cascaded),
        322i32 => Some(SyntaxKind::Case),
        323i32 => Some(SyntaxKind::Cast),
        324i32 => Some(SyntaxKind::CatalogP),
        325i32 => Some(SyntaxKind::Chain),
        326i32 => Some(SyntaxKind::CharP),
        327i32 => Some(SyntaxKind::Character),
        328i32 => Some(SyntaxKind::Characteristics),
        329i32 => Some(SyntaxKind::Check),
        330i32 => Some(SyntaxKind::Checkpoint),
        331i32 => Some(SyntaxKind::Class),
        332i32 => Some(SyntaxKind::Close),
        333i32 => Some(SyntaxKind::Cluster),
        334i32 => Some(SyntaxKind::Coalesce),
        335i32 => Some(SyntaxKind::Collate),
        336i32 => Some(SyntaxKind::Collation),
        337i32 => Some(SyntaxKind::Column),
        338i32 => Some(SyntaxKind::Columns),
        339i32 => Some(SyntaxKind::Comment),
        340i32 => Some(SyntaxKind::Comments),
        341i32 => Some(SyntaxKind::Commit),
        342i32 => Some(SyntaxKind::Committed),
        343i32 => Some(SyntaxKind::Compression),
        344i32 => Some(SyntaxKind::Concurrently),
        345i32 => Some(SyntaxKind::Conditional),
        346i32 => Some(SyntaxKind::Configuration),
        347i32 => Some(SyntaxKind::Conflict),
        348i32 => Some(SyntaxKind::Connection),
        349i32 => Some(SyntaxKind::Constraint),
        350i32 => Some(SyntaxKind::Constraints),
        351i32 => Some(SyntaxKind::ContentP),
        352i32 => Some(SyntaxKind::ContinueP),
        353i32 => Some(SyntaxKind::ConversionP),
        354i32 => Some(SyntaxKind::Copy),
        355i32 => Some(SyntaxKind::Cost),
        356i32 => Some(SyntaxKind::Create),
        357i32 => Some(SyntaxKind::Cross),
        358i32 => Some(SyntaxKind::Csv),
        359i32 => Some(SyntaxKind::Cube),
        360i32 => Some(SyntaxKind::CurrentP),
        361i32 => Some(SyntaxKind::CurrentCatalog),
        362i32 => Some(SyntaxKind::CurrentDate),
        363i32 => Some(SyntaxKind::CurrentRole),
        364i32 => Some(SyntaxKind::CurrentSchema),
        365i32 => Some(SyntaxKind::CurrentTime),
        366i32 => Some(SyntaxKind::CurrentTimestamp),
        367i32 => Some(SyntaxKind::CurrentUser),
        368i32 => Some(SyntaxKind::Cursor),
        369i32 => Some(SyntaxKind::Cycle),
        370i32 => Some(SyntaxKind::DataP),
        371i32 => Some(SyntaxKind::Database),
        372i32 => Some(SyntaxKind::DayP),
        373i32 => Some(SyntaxKind::Deallocate),
        374i32 => Some(SyntaxKind::Dec),
        375i32 => Some(SyntaxKind::DecimalP),
        376i32 => Some(SyntaxKind::Declare),
        377i32 => Some(SyntaxKind::Default),
        378i32 => Some(SyntaxKind::Defaults),
        379i32 => Some(SyntaxKind::Deferrable),
        380i32 => Some(SyntaxKind::Deferred),
        381i32 => Some(SyntaxKind::Definer),
        382i32 => Some(SyntaxKind::DeleteP),
        383i32 => Some(SyntaxKind::Delimiter),
        384i32 => Some(SyntaxKind::Delimiters),
        385i32 => Some(SyntaxKind::Depends),
        386i32 => Some(SyntaxKind::Depth),
        387i32 => Some(SyntaxKind::Desc),
        388i32 => Some(SyntaxKind::Detach),
        389i32 => Some(SyntaxKind::Dictionary),
        390i32 => Some(SyntaxKind::DisableP),
        391i32 => Some(SyntaxKind::Discard),
        392i32 => Some(SyntaxKind::Distinct),
        393i32 => Some(SyntaxKind::Do),
        394i32 => Some(SyntaxKind::DocumentP),
        395i32 => Some(SyntaxKind::DomainP),
        396i32 => Some(SyntaxKind::DoubleP),
        397i32 => Some(SyntaxKind::Drop),
        398i32 => Some(SyntaxKind::Each),
        399i32 => Some(SyntaxKind::Else),
        400i32 => Some(SyntaxKind::EmptyP),
        401i32 => Some(SyntaxKind::EnableP),
        402i32 => Some(SyntaxKind::Encoding),
        403i32 => Some(SyntaxKind::Encrypted),
        404i32 => Some(SyntaxKind::EndP),
        405i32 => Some(SyntaxKind::Enforced),
        406i32 => Some(SyntaxKind::EnumP),
        407i32 => Some(SyntaxKind::ErrorP),
        408i32 => Some(SyntaxKind::Escape),
        409i32 => Some(SyntaxKind::Event),
        410i32 => Some(SyntaxKind::Except),
        411i32 => Some(SyntaxKind::Exclude),
        412i32 => Some(SyntaxKind::Excluding),
        413i32 => Some(SyntaxKind::Exclusive),
        414i32 => Some(SyntaxKind::Execute),
        415i32 => Some(SyntaxKind::Exists),
        416i32 => Some(SyntaxKind::Explain),
        417i32 => Some(SyntaxKind::Expression),
        418i32 => Some(SyntaxKind::Extension),
        419i32 => Some(SyntaxKind::External),
        420i32 => Some(SyntaxKind::Extract),
        421i32 => Some(SyntaxKind::FalseP),
        422i32 => Some(SyntaxKind::Family),
        423i32 => Some(SyntaxKind::Fetch),
        424i32 => Some(SyntaxKind::Filter),
        425i32 => Some(SyntaxKind::Finalize),
        426i32 => Some(SyntaxKind::FirstP),
        427i32 => Some(SyntaxKind::FloatP),
        428i32 => Some(SyntaxKind::Following),
        429i32 => Some(SyntaxKind::For),
        430i32 => Some(SyntaxKind::Force),
        431i32 => Some(SyntaxKind::Foreign),
        432i32 => Some(SyntaxKind::Format),
        433i32 => Some(SyntaxKind::Forward),
        434i32 => Some(SyntaxKind::Freeze),
        435i32 => Some(SyntaxKind::From),
        436i32 => Some(SyntaxKind::Full),
        437i32 => Some(SyntaxKind::Function),
        438i32 => Some(SyntaxKind::Functions),
        439i32 => Some(SyntaxKind::Generated),
        440i32 => Some(SyntaxKind::Global),
        441i32 => Some(SyntaxKind::Grant),
        442i32 => Some(SyntaxKind::Granted),
        443i32 => Some(SyntaxKind::Greatest),
        444i32 => Some(SyntaxKind::GroupP),
        445i32 => Some(SyntaxKind::Grouping),
        446i32 => Some(SyntaxKind::Groups),
        447i32 => Some(SyntaxKind::Handler),
        448i32 => Some(SyntaxKind::Having),
        449i32 => Some(SyntaxKind::HeaderP),
        450i32 => Some(SyntaxKind::Hold),
        451i32 => Some(SyntaxKind::HourP),
        452i32 => Some(SyntaxKind::IdentityP),
        453i32 => Some(SyntaxKind::IfP),
        454i32 => Some(SyntaxKind::Ilike),
        455i32 => Some(SyntaxKind::Immediate),
        456i32 => Some(SyntaxKind::Immutable),
        457i32 => Some(SyntaxKind::ImplicitP),
        458i32 => Some(SyntaxKind::ImportP),
        459i32 => Some(SyntaxKind::InP),
        460i32 => Some(SyntaxKind::Include),
        461i32 => Some(SyntaxKind::Including),
        462i32 => Some(SyntaxKind::Increment),
        463i32 => Some(SyntaxKind::Indent),
        464i32 => Some(SyntaxKind::Index),
        465i32 => Some(SyntaxKind::Indexes),
        466i32 => Some(SyntaxKind::Inherit),
        467i32 => Some(SyntaxKind::Inherits),
        468i32 => Some(SyntaxKind::Initially),
        469i32 => Some(SyntaxKind::InlineP),
        470i32 => Some(SyntaxKind::InnerP),
        471i32 => Some(SyntaxKind::Inout),
        472i32 => Some(SyntaxKind::InputP),
        473i32 => Some(SyntaxKind::Insensitive),
        474i32 => Some(SyntaxKind::Insert),
        475i32 => Some(SyntaxKind::Instead),
        476i32 => Some(SyntaxKind::IntP),
        477i32 => Some(SyntaxKind::Integer),
        478i32 => Some(SyntaxKind::Intersect),
        479i32 => Some(SyntaxKind::Interval),
        480i32 => Some(SyntaxKind::Into),
        481i32 => Some(SyntaxKind::Invoker),
        482i32 => Some(SyntaxKind::Is),
        483i32 => Some(SyntaxKind::Isnull),
        484i32 => Some(SyntaxKind::Isolation),
        485i32 => Some(SyntaxKind::Join),
        486i32 => Some(SyntaxKind::Json),
        487i32 => Some(SyntaxKind::JsonArray),
        488i32 => Some(SyntaxKind::JsonArrayagg),
        489i32 => Some(SyntaxKind::JsonExists),
        490i32 => Some(SyntaxKind::JsonObject),
        491i32 => Some(SyntaxKind::JsonObjectagg),
        492i32 => Some(SyntaxKind::JsonQuery),
        493i32 => Some(SyntaxKind::JsonScalar),
        494i32 => Some(SyntaxKind::JsonSerialize),
        495i32 => Some(SyntaxKind::JsonTable),
        496i32 => Some(SyntaxKind::JsonValue),
        497i32 => Some(SyntaxKind::Keep),
        498i32 => Some(SyntaxKind::Key),
        499i32 => Some(SyntaxKind::Keys),
        500i32 => Some(SyntaxKind::Label),
        501i32 => Some(SyntaxKind::Language),
        502i32 => Some(SyntaxKind::LargeP),
        503i32 => Some(SyntaxKind::LastP),
        504i32 => Some(SyntaxKind::LateralP),
        505i32 => Some(SyntaxKind::Leading),
        506i32 => Some(SyntaxKind::Leakproof),
        507i32 => Some(SyntaxKind::Least),
        508i32 => Some(SyntaxKind::Left),
        509i32 => Some(SyntaxKind::Level),
        510i32 => Some(SyntaxKind::Like),
        511i32 => Some(SyntaxKind::Limit),
        512i32 => Some(SyntaxKind::Listen),
        513i32 => Some(SyntaxKind::Load),
        514i32 => Some(SyntaxKind::Local),
        515i32 => Some(SyntaxKind::Localtime),
        516i32 => Some(SyntaxKind::Localtimestamp),
        517i32 => Some(SyntaxKind::Location),
        518i32 => Some(SyntaxKind::LockP),
        519i32 => Some(SyntaxKind::Locked),
        520i32 => Some(SyntaxKind::Logged),
        521i32 => Some(SyntaxKind::Mapping),
        522i32 => Some(SyntaxKind::Match),
        523i32 => Some(SyntaxKind::Matched),
        524i32 => Some(SyntaxKind::Materialized),
        525i32 => Some(SyntaxKind::Maxvalue),
        526i32 => Some(SyntaxKind::Merge),
        527i32 => Some(SyntaxKind::MergeAction),
        528i32 => Some(SyntaxKind::Method),
        529i32 => Some(SyntaxKind::MinuteP),
        530i32 => Some(SyntaxKind::Minvalue),
        531i32 => Some(SyntaxKind::Mode),
        532i32 => Some(SyntaxKind::MonthP),
        533i32 => Some(SyntaxKind::Move),
        534i32 => Some(SyntaxKind::NameP),
        535i32 => Some(SyntaxKind::Names),
        536i32 => Some(SyntaxKind::National),
        537i32 => Some(SyntaxKind::Natural),
        538i32 => Some(SyntaxKind::Nchar),
        539i32 => Some(SyntaxKind::Nested),
        540i32 => Some(SyntaxKind::New),
        541i32 => Some(SyntaxKind::Next),
        542i32 => Some(SyntaxKind::Nfc),
        543i32 => Some(SyntaxKind::Nfd),
        544i32 => Some(SyntaxKind::Nfkc),
        545i32 => Some(SyntaxKind::Nfkd),
        546i32 => Some(SyntaxKind::No),
        547i32 => Some(SyntaxKind::NoneKw),
        548i32 => Some(SyntaxKind::Normalize),
        549i32 => Some(SyntaxKind::Normalized),
        550i32 => Some(SyntaxKind::Not),
        551i32 => Some(SyntaxKind::Nothing),
        552i32 => Some(SyntaxKind::Notify),
        553i32 => Some(SyntaxKind::Notnull),
        554i32 => Some(SyntaxKind::Nowait),
        555i32 => Some(SyntaxKind::NullP),
        556i32 => Some(SyntaxKind::Nullif),
        557i32 => Some(SyntaxKind::NullsP),
        558i32 => Some(SyntaxKind::Numeric),
        559i32 => Some(SyntaxKind::ObjectP),
        560i32 => Some(SyntaxKind::ObjectsP),
        561i32 => Some(SyntaxKind::Of),
        562i32 => Some(SyntaxKind::Off),
        563i32 => Some(SyntaxKind::Offset),
        564i32 => Some(SyntaxKind::Oids),
        565i32 => Some(SyntaxKind::Old),
        566i32 => Some(SyntaxKind::Omit),
        567i32 => Some(SyntaxKind::On),
        568i32 => Some(SyntaxKind::Only),
        569i32 => Some(SyntaxKind::Operator),
        570i32 => Some(SyntaxKind::Option),
        571i32 => Some(SyntaxKind::Options),
        572i32 => Some(SyntaxKind::Or),
        573i32 => Some(SyntaxKind::Order),
        574i32 => Some(SyntaxKind::Ordinality),
        575i32 => Some(SyntaxKind::Others),
        576i32 => Some(SyntaxKind::OutP),
        577i32 => Some(SyntaxKind::OuterP),
        578i32 => Some(SyntaxKind::Over),
        579i32 => Some(SyntaxKind::Overlaps),
        580i32 => Some(SyntaxKind::Overlay),
        581i32 => Some(SyntaxKind::Overriding),
        582i32 => Some(SyntaxKind::Owned),
        583i32 => Some(SyntaxKind::Owner),
        584i32 => Some(SyntaxKind::Parallel),
        585i32 => Some(SyntaxKind::Parameter),
        586i32 => Some(SyntaxKind::Parser),
        587i32 => Some(SyntaxKind::Partial),
        588i32 => Some(SyntaxKind::Partition),
        589i32 => Some(SyntaxKind::Passing),
        590i32 => Some(SyntaxKind::Password),
        591i32 => Some(SyntaxKind::Path),
        592i32 => Some(SyntaxKind::Period),
        593i32 => Some(SyntaxKind::Placing),
        594i32 => Some(SyntaxKind::Plan),
        595i32 => Some(SyntaxKind::Plans),
        596i32 => Some(SyntaxKind::Policy),
        597i32 => Some(SyntaxKind::Position),
        598i32 => Some(SyntaxKind::Preceding),
        599i32 => Some(SyntaxKind::Precision),
        600i32 => Some(SyntaxKind::Preserve),
        601i32 => Some(SyntaxKind::Prepare),
        602i32 => Some(SyntaxKind::Prepared),
        603i32 => Some(SyntaxKind::Primary),
        604i32 => Some(SyntaxKind::Prior),
        605i32 => Some(SyntaxKind::Privileges),
        606i32 => Some(SyntaxKind::Procedural),
        607i32 => Some(SyntaxKind::Procedure),
        608i32 => Some(SyntaxKind::Procedures),
        609i32 => Some(SyntaxKind::Program),
        610i32 => Some(SyntaxKind::Publication),
        611i32 => Some(SyntaxKind::Quote),
        612i32 => Some(SyntaxKind::Quotes),
        613i32 => Some(SyntaxKind::Range),
        614i32 => Some(SyntaxKind::Read),
        615i32 => Some(SyntaxKind::Real),
        616i32 => Some(SyntaxKind::Reassign),
        617i32 => Some(SyntaxKind::Recursive),
        618i32 => Some(SyntaxKind::RefP),
        619i32 => Some(SyntaxKind::References),
        620i32 => Some(SyntaxKind::Referencing),
        621i32 => Some(SyntaxKind::Refresh),
        622i32 => Some(SyntaxKind::Reindex),
        623i32 => Some(SyntaxKind::RelativeP),
        624i32 => Some(SyntaxKind::Release),
        625i32 => Some(SyntaxKind::Rename),
        626i32 => Some(SyntaxKind::Repeatable),
        627i32 => Some(SyntaxKind::Replace),
        628i32 => Some(SyntaxKind::Replica),
        629i32 => Some(SyntaxKind::Reset),
        630i32 => Some(SyntaxKind::Restart),
        631i32 => Some(SyntaxKind::Restrict),
        632i32 => Some(SyntaxKind::Return),
        633i32 => Some(SyntaxKind::Returning),
        634i32 => Some(SyntaxKind::Returns),
        635i32 => Some(SyntaxKind::Revoke),
        636i32 => Some(SyntaxKind::Right),
        637i32 => Some(SyntaxKind::Role),
        638i32 => Some(SyntaxKind::Rollback),
        639i32 => Some(SyntaxKind::Rollup),
        640i32 => Some(SyntaxKind::Routine),
        641i32 => Some(SyntaxKind::Routines),
        642i32 => Some(SyntaxKind::Row),
        643i32 => Some(SyntaxKind::Rows),
        644i32 => Some(SyntaxKind::Rule),
        645i32 => Some(SyntaxKind::Savepoint),
        646i32 => Some(SyntaxKind::Scalar),
        647i32 => Some(SyntaxKind::Schema),
        648i32 => Some(SyntaxKind::Schemas),
        649i32 => Some(SyntaxKind::Scroll),
        650i32 => Some(SyntaxKind::Search),
        651i32 => Some(SyntaxKind::SecondP),
        652i32 => Some(SyntaxKind::Security),
        653i32 => Some(SyntaxKind::Select),
        654i32 => Some(SyntaxKind::Sequence),
        655i32 => Some(SyntaxKind::Sequences),
        656i32 => Some(SyntaxKind::Serializable),
        657i32 => Some(SyntaxKind::Server),
        658i32 => Some(SyntaxKind::Session),
        659i32 => Some(SyntaxKind::SessionUser),
        660i32 => Some(SyntaxKind::SetKw),
        661i32 => Some(SyntaxKind::Sets),
        662i32 => Some(SyntaxKind::Setof),
        663i32 => Some(SyntaxKind::Share),
        664i32 => Some(SyntaxKind::Show),
        665i32 => Some(SyntaxKind::Similar),
        666i32 => Some(SyntaxKind::Simple),
        667i32 => Some(SyntaxKind::Skip),
        668i32 => Some(SyntaxKind::Smallint),
        669i32 => Some(SyntaxKind::Snapshot),
        670i32 => Some(SyntaxKind::SomeKw),
        671i32 => Some(SyntaxKind::Source),
        672i32 => Some(SyntaxKind::SqlP),
        673i32 => Some(SyntaxKind::Stable),
        674i32 => Some(SyntaxKind::StandaloneP),
        675i32 => Some(SyntaxKind::Start),
        676i32 => Some(SyntaxKind::Statement),
        677i32 => Some(SyntaxKind::Statistics),
        678i32 => Some(SyntaxKind::Stdin),
        679i32 => Some(SyntaxKind::Stdout),
        680i32 => Some(SyntaxKind::Storage),
        681i32 => Some(SyntaxKind::Stored),
        682i32 => Some(SyntaxKind::StrictP),
        683i32 => Some(SyntaxKind::StringP),
        684i32 => Some(SyntaxKind::StripP),
        685i32 => Some(SyntaxKind::Subscription),
        686i32 => Some(SyntaxKind::Substring),
        687i32 => Some(SyntaxKind::Support),
        688i32 => Some(SyntaxKind::Symmetric),
        689i32 => Some(SyntaxKind::Sysid),
        690i32 => Some(SyntaxKind::SystemP),
        691i32 => Some(SyntaxKind::SystemUser),
        692i32 => Some(SyntaxKind::Table),
        693i32 => Some(SyntaxKind::Tables),
        694i32 => Some(SyntaxKind::Tablesample),
        695i32 => Some(SyntaxKind::Tablespace),
        696i32 => Some(SyntaxKind::Target),
        697i32 => Some(SyntaxKind::Temp),
        698i32 => Some(SyntaxKind::Template),
        699i32 => Some(SyntaxKind::Temporary),
        700i32 => Some(SyntaxKind::TextP),
        701i32 => Some(SyntaxKind::Then),
        702i32 => Some(SyntaxKind::Ties),
        703i32 => Some(SyntaxKind::Time),
        704i32 => Some(SyntaxKind::Timestamp),
        705i32 => Some(SyntaxKind::To),
        706i32 => Some(SyntaxKind::Trailing),
        707i32 => Some(SyntaxKind::Transaction),
        708i32 => Some(SyntaxKind::Transform),
        709i32 => Some(SyntaxKind::Treat),
        710i32 => Some(SyntaxKind::Trigger),
        711i32 => Some(SyntaxKind::Trim),
        712i32 => Some(SyntaxKind::TrueP),
        713i32 => Some(SyntaxKind::Truncate),
        714i32 => Some(SyntaxKind::Trusted),
        715i32 => Some(SyntaxKind::TypeP),
        716i32 => Some(SyntaxKind::TypesP),
        717i32 => Some(SyntaxKind::Uescape),
        718i32 => Some(SyntaxKind::Unbounded),
        719i32 => Some(SyntaxKind::Unconditional),
        720i32 => Some(SyntaxKind::Uncommitted),
        721i32 => Some(SyntaxKind::Unencrypted),
        722i32 => Some(SyntaxKind::Union),
        723i32 => Some(SyntaxKind::Unique),
        724i32 => Some(SyntaxKind::Unknown),
        725i32 => Some(SyntaxKind::Unlisten),
        726i32 => Some(SyntaxKind::Unlogged),
        727i32 => Some(SyntaxKind::Until),
        728i32 => Some(SyntaxKind::Update),
        729i32 => Some(SyntaxKind::User),
        730i32 => Some(SyntaxKind::Using),
        731i32 => Some(SyntaxKind::Vacuum),
        732i32 => Some(SyntaxKind::Valid),
        733i32 => Some(SyntaxKind::Validate),
        734i32 => Some(SyntaxKind::Validator),
        735i32 => Some(SyntaxKind::ValueP),
        736i32 => Some(SyntaxKind::Values),
        737i32 => Some(SyntaxKind::Varchar),
        738i32 => Some(SyntaxKind::Variadic),
        739i32 => Some(SyntaxKind::Varying),
        740i32 => Some(SyntaxKind::Verbose),
        741i32 => Some(SyntaxKind::VersionP),
        742i32 => Some(SyntaxKind::View),
        743i32 => Some(SyntaxKind::Views),
        744i32 => Some(SyntaxKind::Virtual),
        745i32 => Some(SyntaxKind::Volatile),
        746i32 => Some(SyntaxKind::When),
        747i32 => Some(SyntaxKind::Where),
        748i32 => Some(SyntaxKind::WhitespaceP),
        749i32 => Some(SyntaxKind::Window),
        750i32 => Some(SyntaxKind::With),
        751i32 => Some(SyntaxKind::Within),
        752i32 => Some(SyntaxKind::Without),
        753i32 => Some(SyntaxKind::Work),
        754i32 => Some(SyntaxKind::Wrapper),
        755i32 => Some(SyntaxKind::Write),
        756i32 => Some(SyntaxKind::XmlP),
        757i32 => Some(SyntaxKind::Xmlattributes),
        758i32 => Some(SyntaxKind::Xmlconcat),
        759i32 => Some(SyntaxKind::Xmlelement),
        760i32 => Some(SyntaxKind::Xmlexists),
        761i32 => Some(SyntaxKind::Xmlforest),
        762i32 => Some(SyntaxKind::Xmlnamespaces),
        763i32 => Some(SyntaxKind::Xmlparse),
        764i32 => Some(SyntaxKind::Xmlpi),
        765i32 => Some(SyntaxKind::Xmlroot),
        766i32 => Some(SyntaxKind::Xmlserialize),
        767i32 => Some(SyntaxKind::Xmltable),
        768i32 => Some(SyntaxKind::YearP),
        769i32 => Some(SyntaxKind::YesP),
        770i32 => Some(SyntaxKind::Zone),
        771i32 => Some(SyntaxKind::FormatLa),
        772i32 => Some(SyntaxKind::NotLa),
        773i32 => Some(SyntaxKind::NullsLa),
        774i32 => Some(SyntaxKind::WithLa),
        775i32 => Some(SyntaxKind::WithoutLa),
        776i32 => Some(SyntaxKind::ModeTypeName),
        777i32 => Some(SyntaxKind::ModePlpgsqlExpr),
        778i32 => Some(SyntaxKind::ModePlpgsqlAssign1),
        779i32 => Some(SyntaxKind::ModePlpgsqlAssign2),
        780i32 => Some(SyntaxKind::ModePlpgsqlAssign3),
        781i32 => Some(SyntaxKind::Uminus),
        _ => None,
    }
}

impl SyntaxKind {
    /// The kind of the scanner token numbered `n`, if there is one.
    pub fn from_token_number(n: i32) -> (r: Option<SyntaxKind>)
        ensures
            r == token_kind(n),
    {
        match n {
            0i32 => Some(SyntaxKind::Nul),
            36i32 => Some(SyntaxKind::Ascii36),
            37i32 => Some(SyntaxKind::Ascii37),
            40i32 => Some(SyntaxKind::Ascii40),
            41i32 => Some(SyntaxKind::Ascii41),
            42i32 => Some(SyntaxKind::Ascii42),
            43i32 => Some(SyntaxKind::Ascii43),
            44i32 => Some(SyntaxKind::Ascii44),
            45i32 => Some(SyntaxKind::Ascii45),
            46i32 => Some(SyntaxKind::Ascii46),
            47i32 => Some(SyntaxKind::Ascii47),
            58i32 => Some(SyntaxKind::Ascii58),
            59i32 => Some(SyntaxKind::Ascii59),
            60i32 => Some(SyntaxKind::Ascii60),
            61i32 => Some(SyntaxKind::Ascii61),
            62i32 => Some(SyntaxKind::Ascii62),
            63i32 => Some(SyntaxKind::Ascii63),
            91i32 => Some(SyntaxKind::Ascii91),
            92i32 => Some(SyntaxKind::Ascii92),
            93i32 => Some(SyntaxKind::Ascii93),
            94i32 => Some(SyntaxKind::Ascii94),
            258i32 => Some(SyntaxKind::Ident),
            259i32 => Some(SyntaxKind::Uident),
            260i32 => Some(SyntaxKind::Fconst),
            261i32 => Some(SyntaxKind::Sconst),
            262i32 => Some(SyntaxKind::Usconst),
            263i32 => Some(SyntaxKind::Bconst),
            264i32 => Some(SyntaxKind::Xconst),
            265i32 => Some(SyntaxKind::Op),
            266i32 => Some(SyntaxKind::Iconst),
            267i32 => Some(SyntaxKind::Param),
            268i32 => Some(SyntaxKind::Typecast),
            269i32 => Some(SyntaxKind::DotDot),
            270i32 => Some(SyntaxKind::ColonEquals),
            271i32 => Some(SyntaxKind::EqualsGreater),
            272i32 => Some(SyntaxKind::LessEquals),
            273i32 => Some(SyntaxKind::GreaterEquals),
            274i32 => Some(SyntaxKind::NotEquals),
            275i32 => Some(SyntaxKind::SqlComment),
            276i32 => Some(SyntaxKind::CComment),
            277i32 => Some(SyntaxKind::AbortP),
            278i32 => Some(SyntaxKind::Absent),
            279i32 => Some(SyntaxKind::AbsoluteP),
            280i32 => Some(SyntaxKind::Access),
            281i32 => Some(SyntaxKind::Action),
            282i32 => Some(SyntaxKind::AddP),
            283i32 => Some(SyntaxKind::Admin),
            284i32 => Some(SyntaxKind::After),
            285i32 => Some(SyntaxKind::Aggregate),
            286i32 => Some(SyntaxKind::All),
            287i32 => Some(SyntaxKind::Also),
            288i32 => Some(SyntaxKind::Alter),
            289i32 => Some(SyntaxKind::Always),
            290i32 => Some(SyntaxKind::Analyse),
            291i32 => Some(SyntaxKind::Analyze),
            292i32 => Some(SyntaxKind::And),
            293i32 => Some(SyntaxKind::Any),
            294i32 => Some(SyntaxKind::Array),
            295i32 => Some(SyntaxKind::As),
            296i32 => Some(SyntaxKind::Asc),
            297i32 => Some(SyntaxKind::Asensitive),
            298i32 => Some(SyntaxKind::Assertion),
            299i32 => Some(SyntaxKind::Assignment),
            300i32 => Some(SyntaxKind::Asymmetric),
            301i32 => Some(SyntaxKind::Atomic),
            302i32 => Some(SyntaxKind::At),
            303i32 => Some(SyntaxKind::Attach),
            304i32 => Some(SyntaxKind::Attribute),
            305i32 => Some(SyntaxKind::Authorization),
            306i32 => Some(SyntaxKind::Backward),
            307i32 => Some(SyntaxKind::Before),
            308i32 => Some(SyntaxKind::BeginP),
            309i32 => Some(SyntaxKind::Between),
            310i32 => Some(SyntaxKind::Bigint),
            311i32 => Some(SyntaxKind::Binary),
            312i32 => Some(SyntaxKind::Bit),
            313i32 => Some(SyntaxKind::BooleanP),
            314i32 => Some(SyntaxKind::Both),
            315i32 => Some(SyntaxKind::Breadth),
            316i32 => Some(SyntaxKind::By),
            317i32 => Some(SyntaxKind::Cache),
            318i32 => Some(SyntaxKind::Call),
            319i32 => Some(SyntaxKind::Called),
            320i32 => Some(SyntaxKind::Cascade),
            321i32 => Some(SyntaxKind::Cascaded),
            322i32 => Some(SyntaxKind::Case),
            323i32 => Some(SyntaxKind::Cast),
            324i32 => Some(SyntaxKind::CatalogP),
            325i32 => Some(SyntaxKind::Chain),
            326i32 => Some(SyntaxKind::CharP),
            327i32 => Some(SyntaxKind::Character),
            328i32 => Some(SyntaxKind::Characteristics),
            329i32 => Some(SyntaxKind::Check),
            330i32 => Some(SyntaxKind::Checkpoint),
            331i32 => Some(SyntaxKind::Class),
            332i32 => Some(SyntaxKind::Close),
            333i32 => Some(SyntaxKind::Cluster),
            334i32 => Some(SyntaxKind::Coalesce),
            335i32 => Some(SyntaxKind::Collate),
            336i32 => Some(SyntaxKind::Collation),
            337i32 => Some(SyntaxKind::Column),
            338i32 => Some(SyntaxKind::Columns),
            339i32 => Some(SyntaxKind::Comment),
            340i32 => Some(SyntaxKind::Comments),
            341i32 => Some(SyntaxKind::Commit),
            342i32 => Some(SyntaxKind::Committed),
            343i32 => Some(SyntaxKind::Compression),
            344i32 => Some(SyntaxKind::Concurrently),
            345i32 => Some(SyntaxKind::Conditional),
            346i32 => Some(SyntaxKind::Configuration),
            347i32 => Some(SyntaxKind::Conflict),
            348i32 => Some(SyntaxKind::Connection),
            349i32 => Some(SyntaxKind::Constraint),
            350i32 => Some(SyntaxKind::Constraints),
            351i32 => Some(SyntaxKind::ContentP),
            352i32 => Some(SyntaxKind::ContinueP),
            353i32 => Some(SyntaxKind::ConversionP),
            354i32 => Some(SyntaxKind::Copy),
            355i32 => Some(SyntaxKind::Cost),
            356i32 => Some(SyntaxKind::Create),
            357i32 => Some(SyntaxKind::Cross),
            358i32 => Some(SyntaxKind::Csv),
            359i32 => Some(SyntaxKind::Cube),
            360i32 => Some(SyntaxKind::CurrentP),
            361i32 => Some(SyntaxKind::CurrentCatalog),
            362i32 => Some(SyntaxKind::CurrentDate),
            363i32 => Some(SyntaxKind::CurrentRole),
            364i32 => Some(SyntaxKind::CurrentSchema),
            365i32 => Some(SyntaxKind::CurrentTime),
            366i32 => Some(SyntaxKind::CurrentTimestamp),
            367i32 => Some(SyntaxKind::CurrentUser),
            368i32 => Some(SyntaxKind::Cursor),
            369i32 => Some(SyntaxKind::Cycle),
            370i32 => Some(SyntaxKind::DataP),
            371i32 => Some(SyntaxKind::Database),
            372i32 => Some(SyntaxKind::DayP),
            373i32 => Some(SyntaxKind::Deallocate),
            374i32 => Some(SyntaxKind::Dec),
            375i32 => Some(SyntaxKind::DecimalP),
            376i32 => Some(SyntaxKind::Declare),
            377i32 => Some(SyntaxKind::Default),
            378i32 => Some(SyntaxKind::Defaults),
            379i32 => Some(SyntaxKind::Deferrable),
            380i32 => Some(SyntaxKind::Deferred),
            381i32 => Some(SyntaxKind::Definer),
            382i32 => Some(SyntaxKind::DeleteP),
            383i32 => Some(SyntaxKind::Delimiter),
            384i32 => Some(SyntaxKind::Delimiters),
            385i32 => Some(SyntaxKind::Depends),
            386i32 => Some(SyntaxKind::Depth),
            387i32 => Some(SyntaxKind::Desc),
            388i32 => Some(SyntaxKind::Detach),
            389i32 => Some(SyntaxKind::Dictionary),
            390i32 => Some(SyntaxKind::DisableP),
            391i32 => Some(SyntaxKind::Discard),
            392i32 => Some(SyntaxKind::Distinct),
            393i32 => Some(SyntaxKind::Do),
            394i32 => Some(SyntaxKind::DocumentP),
            395i32 => Some(SyntaxKind::DomainP),
            396i32 => Some(SyntaxKind::DoubleP),
            397i32 => Some(SyntaxKind::Drop),
            398i32 => Some(SyntaxKind::Each),
            399i32 => Some(SyntaxKind::Else),
            400i32 => Some(SyntaxKind::EmptyP),
            401i32 => Some(SyntaxKind::EnableP),
            402i32 => Some(SyntaxKind::Encoding),
            403i32 => Some(SyntaxKind::Encrypted),
            404i32 => Some(SyntaxKind::EndP),
            405i32 => Some(SyntaxKind::Enforced),
            406i32 => Some(SyntaxKind::EnumP),
            407i32 => Some(SyntaxKind::ErrorP),
            408i32 => Some(SyntaxKind::Escape),
            409i32 => Some(SyntaxKind::Event),
            410i32 => Some(SyntaxKind::Except),
            411i32 => Some(SyntaxKind::Exclude),
            412i32 => Some(SyntaxKind::Excluding),
            413i32 => Some(SyntaxKind::Exclusive),
            414i32 => Some(SyntaxKind::Execute),
            415i32 => Some(SyntaxKind::Exists),
            416i32 => Some(SyntaxKind::Explain),
            417i32 => Some(SyntaxKind::Expression),
            418i32 => Some(SyntaxKind::Extension),
            419i32 => Some(SyntaxKind::External),
            420i32 => Some(SyntaxKind::Extract),
            421i32 => Some(SyntaxKind::FalseP),
            422i32 => Some(SyntaxKind::Family),
            423i32 => Some(SyntaxKind::Fetch),
            424i32 => Some(SyntaxKind::Filter),
            425i32 => Some(SyntaxKind::Finalize),
            426i32 => Some(SyntaxKind::FirstP),
            427i32 => Some(SyntaxKind::FloatP),
            428i32 => Some(SyntaxKind::Following),
            429i32 => Some(SyntaxKind::For),
            430i32 => Some(SyntaxKind::Force),
            431i32 => Some(SyntaxKind::Foreign),
            432i32 => Some(SyntaxKind::Format),
            433i32 => Some(SyntaxKind::Forward),
            434i32 => Some(SyntaxKind::Freeze),
            435i32 => Some(SyntaxKind::From),
            436i32 => Some(SyntaxKind::Full),
            437i32 => Some(SyntaxKind::Function),
            438i32 => Some(SyntaxKind::Functions),
            439i32 => Some(SyntaxKind::Generated),
            440i32 => Some(SyntaxKind::Global),
            441i32 => Some(SyntaxKind::Grant),
            442i32 => Some(SyntaxKind::Granted),
            443i32 => Some(SyntaxKind::Greatest),
            444i32 => Some(SyntaxKind::GroupP),
            445i32 => Some(SyntaxKind::Grouping),
            446i32 => Some(SyntaxKind::Groups),
            447i32 => Some(SyntaxKind::Handler),
            448i32 => Some(SyntaxKind::Having),
            449i32 => Some(SyntaxKind::HeaderP),
            450i32 => Some(SyntaxKind::Hold),
            451i32 => Some(SyntaxKind::HourP),
            452i32 => Some(SyntaxKind::IdentityP),
            453i32 => Some(SyntaxKind::IfP),
            454i32 => Some(SyntaxKind::Ilike),
            455i32 => Some(SyntaxKind::Immediate),
            456i32 => Some(SyntaxKind::Immutable),
            457i32 => Some(SyntaxKind::ImplicitP),
            458i32 => Some(SyntaxKind::ImportP),
            459i32 => Some(SyntaxKind::InP),
            460i32 => Some(SyntaxKind::Include),
            461i32 => Some(SyntaxKind::Including),
            462i32 => Some(SyntaxKind::Increment),
            463i32 => Some(SyntaxKind::Indent),
            464i32 => Some(SyntaxKind::Index),
            465i32 => Some(SyntaxKind::Indexes),
            466i32 => Some(SyntaxKind::Inherit),
            467i32 => Some(SyntaxKind::Inherits),
            468i32 => Some(SyntaxKind::Initially),
            469i32 => Some(SyntaxKind::InlineP),
            470i32 => Some(SyntaxKind::InnerP),
            471i32 => Some(SyntaxKind::Inout),
            472i32 => Some(SyntaxKind::InputP),
            473i32 => Some(SyntaxKind::Insensitive),
            474i32 => Some(SyntaxKind::Insert),
            475i32 => Some(SyntaxKind::Instead),
            476i32 => Some(SyntaxKind::IntP),
            477i32 => Some(SyntaxKind::Integer),
            478i32 => Some(SyntaxKind::Intersect),
            479i32 => Some(SyntaxKind::Interval),
            480i32 => Some(SyntaxKind::Into),
            481i32 => Some(SyntaxKind::Invoker),
            482i32 => Some(SyntaxKind::Is),
            483i32 => Some(SyntaxKind::Isnull),
            484i32 => Some(SyntaxKind::Isolation),
            485i32 => Some(SyntaxKind::Join),
            486i32 => Some(SyntaxKind::Json),
            487i32 => Some(SyntaxKind::JsonArray),
            488i32 => Some(SyntaxKind::JsonArrayagg),
            489i32 => Some(SyntaxKind::JsonExists),
            490i32 => Some(SyntaxKind::JsonObject),
            491i32 => Some(SyntaxKind::JsonObjectagg),
            492i32 => Some(SyntaxKind::JsonQuery),
            493i32 => Some(SyntaxKind::JsonScalar),
            494i32 => Some(SyntaxKind::JsonSerialize),
            495i32 => Some(SyntaxKind::JsonTable),
            496i32 => Some(SyntaxKind::JsonValue),
            497i32 => Some(SyntaxKind::Keep),
            498i32 => Some(SyntaxKind::Key),
            499i32 => Some(SyntaxKind::Keys),
            500i32 => Some(SyntaxKind::Label),
            501i32 => Some(SyntaxKind::Language),
            502i32 => Some(SyntaxKind::LargeP),
            503i32 => Some(SyntaxKind::LastP),
            504i32 => Some(SyntaxKind::LateralP),
            505i32 => Some(SyntaxKind::Leading),
            506i32 => Some(SyntaxKind::Leakproof),
            507i32 => Some(SyntaxKind::Least),
            508i32 => Some(SyntaxKind::Left),
            509i32 => Some(SyntaxKind::Level),
            510i32 => Some(SyntaxKind::Like),
            511i32 => Some(SyntaxKind::Limit),
            512i32 => Some(SyntaxKind::Listen),
            513i32 => Some(SyntaxKind::Load),
            514i32 => Some(SyntaxKind::Local),
            515i32 => Some(SyntaxKind::Localtime),
            516i32 => Some(SyntaxKind::Localtimestamp),
            517i32 => Some(SyntaxKind::Location),
            518i32 => Some(SyntaxKind::LockP),
            519i32 => Some(SyntaxKind::Locked),
            520i32 => Some(SyntaxKind::Logged),
            521i32 => Some(SyntaxKind::Mapping),
            522i32 => Some(SyntaxKind::Match),
            523i32 => Some(SyntaxKind::Matched),
            524i32 => Some(SyntaxKind::Materialized),
            525i32 => Some(SyntaxKind::Maxvalue),
            526i32 => Some(SyntaxKind::Merge),
            527i32 => Some(SyntaxKind::MergeAction),
            528i32 => Some(SyntaxKind::Method),
            529i32 => Some(SyntaxKind::MinuteP),
            530i32 => Some(SyntaxKind::Minvalue),
            531i32 => Some(SyntaxKind::Mode),
            532i32 => Some(SyntaxKind::MonthP),
            533i32 => Some(SyntaxKind::Move),
            534i32 => Some(SyntaxKind::NameP),
            535i32 => Some(SyntaxKind::Names),
            536i32 => Some(SyntaxKind::National),
            537i32 => Some(SyntaxKind::Natural),
            538i32 => Some(SyntaxKind::Nchar),
            539i32 => Some(SyntaxKind::Nested),
            540i32 => Some(SyntaxKind::New),
            541i32 => Some(SyntaxKind::Next),
            542i32 => Some(SyntaxKind::Nfc),
            543i32 => Some(SyntaxKind::Nfd),
            544i32 => Some(SyntaxKind::Nfkc),
            545i32 => Some(SyntaxKind::Nfkd),
            546i32 => Some(SyntaxKind::No),
            547i32 => Some(SyntaxKind::NoneKw),
            548i32 => Some(SyntaxKind::Normalize),
            549i32 => Some(SyntaxKind::Normalized),
            550i32 => Some(SyntaxKind::Not),
            551i32 => Some(SyntaxKind::Nothing),
            552i32 => Some(SyntaxKind::Notify),
            553i32 => Some(SyntaxKind::Notnull),
            554i32 => Some(SyntaxKind::Nowait),
            555i32 => Some(SyntaxKind::NullP),
            556i32 => Some(SyntaxKind::Nullif),
            557i32 => Some(SyntaxKind::NullsP),
            558i32 => Some(SyntaxKind::Numeric),
            559i32 => Some(SyntaxKind::ObjectP),
            560i32 => Some(SyntaxKind::ObjectsP),
            561i32 => Some(SyntaxKind::Of),
            562i32 => Some(SyntaxKind::Off),
            563i32 => Some(SyntaxKind::Offset),
            564i32 => Some(SyntaxKind::Oids),
            565i32 => Some(SyntaxKind::Old),
            566i32 => Some(SyntaxKind::Omit),
            567i32 => Some(SyntaxKind::On),
            568i32 => Some(SyntaxKind::Only),
            569i32 => Some(SyntaxKind::Operator),
            570i32 => Some(SyntaxKind::Option),
            571i32 => Some(SyntaxKind::Options),
            572i32 => Some(SyntaxKind::Or),
            573i32 => Some(SyntaxKind::Order),
            574i32 => Some(SyntaxKind::Ordinality),
            575i32 => Some(SyntaxKind::Others),
            576i32 => Some(SyntaxKind::OutP),
            577i32 => Some(SyntaxKind::OuterP),
            578i32 => Some(SyntaxKind::Over),
            579i32 => Some(SyntaxKind::Overlaps),
            580i32 => Some(SyntaxKind::Overlay),
            581i32 => Some(SyntaxKind::Overriding),
            582i32 => Some(SyntaxKind::Owned),
            583i32 => Some(SyntaxKind::Owner),
            584i32 => Some(SyntaxKind::Parallel),
            585i32 => Some(SyntaxKind::Parameter),
            586i32 => Some(SyntaxKind::Parser),
            587i32 => Some(SyntaxKind::Partial),
            588i32 => Some(SyntaxKind::Partition),
            589i32 => Some(SyntaxKind::Passing),
            590i32 => Some(SyntaxKind::Password),
            591i32 => Some(SyntaxKind::Path),
            592i32 => Some(SyntaxKind::Period),
            593i32 => Some(SyntaxKind::Placing),
            594i32 => Some(SyntaxKind::Plan),
            595i32 => Some(SyntaxKind::Plans),
            596i32 => Some(SyntaxKind::Policy),
            597i32 => Some(SyntaxKind::Position),
            598i32 => Some(SyntaxKind::Preceding),
            599i32 => Some(SyntaxKind::Precision),
            600i32 => Some(SyntaxKind::Preserve),
            601i32 => Some(SyntaxKind::Prepare),
            602i32 => Some(SyntaxKind::Prepared),
            603i32 => Some(SyntaxKind::Primary),
            604i32 => Some(SyntaxKind::Prior),
            605i32 => Some(SyntaxKind::Privileges),
            606i32 => Some(SyntaxKind::Procedural),
            607i32 => Some(SyntaxKind::Procedure),
            608i32 => Some(SyntaxKind::Procedures),
            609i32 => Some(SyntaxKind::Program),
            610i32 => Some(SyntaxKind::Publication),
            611i32 => Some(SyntaxKind::Quote),
            612i32 => Some(SyntaxKind::Quotes),
            613i32 => Some(SyntaxKind::Range),
            614i32 => Some(SyntaxKind::Read),
            615i32 => Some(SyntaxKind::Real),
            616i32 => Some(SyntaxKind::Reassign),
            617i32 => Some(SyntaxKind::Recursive),
            618i32 => Some(SyntaxKind::RefP),
            619i32 => Some(SyntaxKind::References),
            620i32 => Some(SyntaxKind::Referencing),
            621i32 => Some(SyntaxKind::Refresh),
            622i32 => Some(SyntaxKind::Reindex),
            623i32 => Some(SyntaxKind::RelativeP),
            624i32 => Some(SyntaxKind::Release),
            625i32 => Some(SyntaxKind::Rename),
            626i32 => Some(SyntaxKind::Repeatable),
            627i32 => Some(SyntaxKind::Replace),
            628i32 => Some(SyntaxKind::Replica),
            629i32 => Some(SyntaxKind::Reset),
            630i32 => Some(SyntaxKind::Restart),
            631i32 => Some(SyntaxKind::Restrict),
            632i32 => Some(SyntaxKind::Return),
            633i32 => Some(SyntaxKind::Returning),
            634i32 => Some(SyntaxKind::Returns),
            635i32 => Some(SyntaxKind::Revoke),
            636i32 => Some(SyntaxKind::Right),
            637i32 => Some(SyntaxKind::Role),
            638i32 => Some(SyntaxKind::Rollback),
            639i32 => Some(SyntaxKind::Rollup),
            640i32 => Some(SyntaxKind::Routine),
            641i32 => Some(SyntaxKind::Routines),
            642i32 => Some(SyntaxKind::Row),
            643i32 => Some(SyntaxKind::Rows),
            644i32 => Some(SyntaxKind::Rule),
            645i32 => Some(SyntaxKind::Savepoint),
            646i32 => Some(SyntaxKind::Scalar),
            647i32 => Some(SyntaxKind::Schema),
            648i32 => Some(SyntaxKind::Schemas),
            649i32 => Some(SyntaxKind::Scroll),
            650i32 => Some(SyntaxKind::Search),
            651i32 => Some(SyntaxKind::SecondP),
            652i32 => Some(SyntaxKind::Security),
            653i32 => Some(SyntaxKind::Select),
            654i32 => Some(SyntaxKind::Sequence),
            655i32 => Some(SyntaxKind::Sequences),
            656i32 => Some(SyntaxKind::Serializable),
            657i32 => Some(SyntaxKind::Server),
            658i32 => Some(SyntaxKind::Session),
            659i32 => Some(SyntaxKind::SessionUser),
            660i32 => Some(SyntaxKind::SetKw),
            661i32 => Some(SyntaxKind::Sets),
            662i32 => Some(SyntaxKind::Setof),
            663i32 => Some(SyntaxKind::Share),
            664i32 => Some(SyntaxKind::Show),
            665i32 => Some(SyntaxKind::Similar),
            666i32 => Some(SyntaxKind::Simple),
            667i32 => Some(SyntaxKind::Skip),
            668i32 => Some(SyntaxKind::Smallint),
            669i32 => Some(SyntaxKind::Snapshot),
            670i32 => Some(SyntaxKind::SomeKw),
            671i32 => Some(SyntaxKind::Source),
            672i32 => Some(SyntaxKind::SqlP),
            673i32 => Some(SyntaxKind::Stable),
            674i32 => Some(SyntaxKind::StandaloneP),
            675i32 => Some(SyntaxKind::Start),
            676i32 => Some(SyntaxKind::Statement),
            677i32 => Some(SyntaxKind::Statistics),
            678i32 => Some(SyntaxKind::Stdin),
            679i32 => Some(SyntaxKind::Stdout),
            680i32 => Some(SyntaxKind::Storage),
            681i32 => Some(SyntaxKind::Stored),
            682i32 => Some(SyntaxKind::StrictP),
            683i32 => Some(SyntaxKind::StringP),
            684i32 => Some(SyntaxKind::StripP),
            685i32 => Some(SyntaxKind::Subscription),
            686i32 => Some(SyntaxKind::Substring),
            687i32 => Some(SyntaxKind::Support),
            688i32 => Some(SyntaxKind::Symmetric),
            689i32 => Some(SyntaxKind::Sysid),
            690i32 => Some(SyntaxKind::SystemP),
            691i32 => Some(SyntaxKind::SystemUser),
            692i32 => Some(SyntaxKind::Table),
            693i32 => Some(SyntaxKind::Tables),
            694i32 => Some(SyntaxKind::Tablesample),
            695i32 => Some(SyntaxKind::Tablespace),
            696i32 => Some(SyntaxKind::Target),
            697i32 => Some(SyntaxKind::Temp),
            698i32 => Some(SyntaxKind::Template),
            699i32 => Some(SyntaxKind::Temporary),
            700i32 => Some(SyntaxKind::TextP),
            701i32 => Some(SyntaxKind::Then),
            702i32 => Some(SyntaxKind::Ties),
            703i32 => Some(SyntaxKind::Time),
            704i32 => Some(SyntaxKind::Timestamp),
            705i32 => Some(SyntaxKind::To),
            706i32 => Some(SyntaxKind::Trailing),
            707i32 => Some(SyntaxKind::Transaction),
            708i32 => Some(SyntaxKind::Transform),
            709i32 => Some(SyntaxKind::Treat),
            710i32 => Some(SyntaxKind::Trigger),
            711i32 => Some(SyntaxKind::Trim),
            712i32 => Some(SyntaxKind::TrueP),
            713i32 => Some(SyntaxKind::Truncate),
            714i32 => Some(SyntaxKind::Trusted),
            715i32 => Some(SyntaxKind::TypeP),
            716i32 => Some(SyntaxKind::TypesP),
            717i32 => Some(SyntaxKind::Uescape),
            718i32 => Some(SyntaxKind::Unbounded),
            719i32 => Some(SyntaxKind::Unconditional),
            720i32 => Some(SyntaxKind::Uncommitted),
            721i32 => Some(SyntaxKind::Unencrypted),
            722i32 => Some(SyntaxKind::Union),
            723i32 => Some(SyntaxKind::Unique),
            724i32 => Some(SyntaxKind::Unknown),
            725i32 => Some(SyntaxKind::Unlisten),
            726i32 => Some(SyntaxKind::Unlogged),
            727i32 => Some(SyntaxKind::Until),
            728i32 => Some(SyntaxKind::Update),
            729i32 => Some(SyntaxKind::User),
            730i32 => Some(SyntaxKind::Using),
            731i32 => Some(SyntaxKind::Vacuum),
            732i32 => Some(SyntaxKind::Valid),
            733i32 => Some(SyntaxKind::Validate),
            734i32 => Some(SyntaxKind::Validator),
            735i32 => Some(SyntaxKind::ValueP),
            736i32 => Some(SyntaxKind::Values),
            737i32 => Some(SyntaxKind::Varchar),
            738i32 => Some(SyntaxKind::Variadic),
            739i32 => Some(SyntaxKind::Varying),
            740i32 => Some(SyntaxKind::Verbose),
            741i32 => Some(SyntaxKind::VersionP),
            742i32 => Some(SyntaxKind::View),
            743i32 => Some(SyntaxKind::Views),
            744i32 => Some(SyntaxKind::Virtual),
            745i32 => Some(SyntaxKind::Volatile),
            746i32 => Some(SyntaxKind::When),
            747i32 => Some(SyntaxKind::Where),
            748i32 => Some(SyntaxKind::WhitespaceP),
            749i32 => Some(SyntaxKind::Window),
            750i32 => Some(SyntaxKind::With),
            751i32 => Some(SyntaxKind::Within),
            752i32 => Some(SyntaxKind::Without),
            753i32 => Some(SyntaxKind::Work),
            754i32 => Some(SyntaxKind::Wrapper),
            755i32 => Some(SyntaxKind::Write),
            756i32 => Some(SyntaxKind::XmlP),
            757i32 => Some(SyntaxKind::Xmlattributes),
            758i32 => Some(SyntaxKind::Xmlconcat),
            759i32 => Some(SyntaxKind::Xmlelement),
            760i32 => Some(SyntaxKind::Xmlexists),
            761i32 => Some(SyntaxKind::Xmlforest),
            762i32 => Some(SyntaxKind::Xmlnamespaces),
            763i32 => Some(SyntaxKind::Xmlparse),
            764i32 => Some(SyntaxKind::Xmlpi),
            765i32 => Some(SyntaxKind::Xmlroot),
            766i32 => Some(SyntaxKind::Xmlserialize),
            767i32 => Some(SyntaxKind::Xmltable),
            768i32 => Some(SyntaxKind::YearP),
            769i32 => Some(SyntaxKind::YesP),
            770i32 => Some(SyntaxKind::Zone),
            771i32 => Some(SyntaxKind::FormatLa),
            772i32 => Some(SyntaxKind::NotLa),
            773i32 => Some(SyntaxKind::NullsLa),
            774i32 => Some(SyntaxKind::WithLa),
            775i32 => Some(SyntaxKind::WithoutLa),
            776i32 => Some(SyntaxKind::ModeTypeName),
            777i32 => Some(SyntaxKind::ModePlpgsqlExpr),
            778i32 => Some(SyntaxKind::ModePlpgsqlAssign1),
            779i32 => Some(SyntaxKind::ModePlpgsqlAssign2),
            780i32 => Some(SyntaxKind::ModePlpgsqlAssign3),
            781i32 => Some(SyntaxKind::Uminus),
            _ => None,
        }
    }
}

impl SyntaxKind {
    /// The name that `Debug` prints for the kind: the name of its Postgres
    /// scanner token or node.
    pub open spec fn debug_name_spec(self) -> Seq<char> {
        match self {
            SyntaxKind::SourceFile => "SourceFile"@,
            SyntaxKind::Stmt => "Stmt"@,
            SyntaxKind::Whitespace => "Whitespace"@,
            SyntaxKind::Newline => "Newline"@,
            SyntaxKind::Tab => "Tab"@,
            SyntaxKind::Word => "Word"@,
            SyntaxKind::Eof => "Eof"@,
            SyntaxKind::Nul => "Nul"@,
            SyntaxKind::Ascii36 => "Ascii36"@,
            SyntaxKind::Ascii37 => "Ascii37"@,
            SyntaxKind::Ascii40 => "Ascii40"@,
            SyntaxKind::Ascii41 => "Ascii41"@,
            SyntaxKind::Ascii42 => "Ascii42"@,
            SyntaxKind::Ascii43 => "Ascii43"@,
            SyntaxKind::Ascii44 => "Ascii44"@,
            SyntaxKind::Ascii45 => "Ascii45"@,
            SyntaxKind::Ascii46 => "Ascii46"@,
            SyntaxKind::Ascii47 => "Ascii47"@,
            SyntaxKind::Ascii58 => "Ascii58"@,
            SyntaxKind::Ascii59 => "Ascii59"@,
            SyntaxKind::Ascii60 => "Ascii60"@,
            SyntaxKind::Ascii61 => "Ascii61"@,
            SyntaxKind::Ascii62 => "Ascii62"@,
            SyntaxKind::Ascii63 => "Ascii63"@,
            SyntaxKind::Ascii91 => "Ascii91"@,
            SyntaxKind::Ascii92 => "Ascii92"@,
            SyntaxKind::Ascii93 => "Ascii93"@,
            SyntaxKind::Ascii94 => "Ascii94"@,
            SyntaxKind::Ident => "Ident"@,
            SyntaxKind::Uident => "Uident"@,
            SyntaxKind::Fconst => "Fconst"@,
            SyntaxKind::Sconst => "Sconst"@,
            SyntaxKind::Usconst => "Usconst"@,
            SyntaxKind::Bconst => "Bconst"@,
            SyntaxKind::Xconst => "Xconst"@,
            SyntaxKind::Op => "Op"@,
            SyntaxKind::Iconst => "Iconst"@,
            SyntaxKind::Param => "Param"@,
            SyntaxKind::Typecast => "Typecast"@,
            SyntaxKind::DotDot => "DotDot"@,
            SyntaxKind::ColonEquals => "ColonEquals"@,
            SyntaxKind::EqualsGreater => "EqualsGreater"@,
            SyntaxKind::LessEquals => "LessEquals"@,
            SyntaxKind::GreaterEquals => "GreaterEquals"@,
            SyntaxKind::NotEquals => "NotEquals"@,
            SyntaxKind::SqlComment => "SqlComment"@,
            SyntaxKind::CComment => "CComment"@,
            SyntaxKind::AbortP => "AbortP"@,
            SyntaxKind::Absent => "Absent"@,
            SyntaxKind::AbsoluteP => "AbsoluteP"@,
            SyntaxKind::Access => "Access"@,
            SyntaxKind::Action => "Action"@,
            SyntaxKind::AddP => "AddP"@,
            SyntaxKind::Admin => "Admin"@,
            SyntaxKind::After => "After"@,
            SyntaxKind::Aggregate => "Aggregate"@,
            SyntaxKind::All => "All"@,
            SyntaxKind::Also => "Also"@,
            SyntaxKind::Alter => "Alter"@,
            SyntaxKind::Always => "Always"@,
            _ => self.debug_name_part1(),
        }
    }

    /// The name that `Debug` prints for the kind.
    pub fn debug_name(self) -> (r: &'static str)
        ensures
            r@ == self.debug_name_spec(),
    {
        match self {
            SyntaxKind::SourceFile => "SourceFile",
            SyntaxKind::Stmt => "Stmt",
            SyntaxKind::Whitespace => "Whitespace",
            SyntaxKind::Newline => "Newline",
            SyntaxKind::Tab => "Tab",
            SyntaxKind::Word => "Word",
            SyntaxKind::Eof => "Eof",
            SyntaxKind::Nul => "Nul",
            SyntaxKind::Ascii36 => "Ascii36",
            SyntaxKind::Ascii37 => "Ascii37",
            SyntaxKind::Ascii40 => "Ascii40",
            SyntaxKind::Ascii41 => "Ascii41",
            SyntaxKind::Ascii42 => "Ascii42",
            SyntaxKind::Ascii43 => "Ascii43",
            SyntaxKind::Ascii44 => "Ascii44",
            SyntaxKind::Ascii45 => "Ascii45",
            SyntaxKind::Ascii46 => "Ascii46",
            SyntaxKind::Ascii47 => "Ascii47",
            SyntaxKind::Ascii58 => "Ascii58",
            SyntaxKind::Ascii59 => "Ascii59",
            SyntaxKind::Ascii60 => "Ascii60",
            SyntaxKind::Ascii61 => "Ascii61",
            SyntaxKind::Ascii62 => "Ascii62",
            SyntaxKind::Ascii63 => "Ascii63",
            SyntaxKind::Ascii91 => "Ascii91",
            SyntaxKind::Ascii92 => "Ascii92",
            SyntaxKind::Ascii93 => "Ascii93",
            SyntaxKind::Ascii94 => "Ascii94",
            SyntaxKind::Ident => "Ident",
            SyntaxKind::Uident => "Uident",
            SyntaxKind::Fconst => "Fconst",
            SyntaxKind::Sconst => "Sconst",
            SyntaxKind::Usconst => "Usconst",
            SyntaxKind::Bconst => "Bconst",
            SyntaxKind::Xconst => "Xconst",
            SyntaxKind::Op => "Op",
            SyntaxKind::Iconst => "Iconst",
            SyntaxKind::Param => "Param",
            SyntaxKind::Typecast => "Typecast",
            SyntaxKind::DotDot => "DotDot",
            SyntaxKind::ColonEquals => "ColonEquals",
            SyntaxKind::EqualsGreater => "EqualsGreater",
            SyntaxKind::LessEquals => "LessEquals",
            SyntaxKind::GreaterEquals => "GreaterEquals",
            SyntaxKind::NotEquals => "NotEquals",
            SyntaxKind::SqlComment => "SqlComment",
            SyntaxKind::CComment => "CComment",
            SyntaxKind::AbortP => "AbortP",
            SyntaxKind::Absent => "Absent",
            SyntaxKind::AbsoluteP => "AbsoluteP",
            SyntaxKind::Access => "Access",
            SyntaxKind::Action => "Action",
            SyntaxKind::AddP => "AddP",
            SyntaxKind::Admin => "Admin",
            SyntaxKind::After => "After",
            SyntaxKind::Aggregate => "Aggregate",
            SyntaxKind::All => "All",
            SyntaxKind::Also => "Also",
            SyntaxKind::Alter => "Alter",
            SyntaxKind::Always => "Always",
            _ => self.debug_name_exec_part1(),
        }
    }

    /// [`SyntaxKind::debug_name_spec`] for the kinds of block 2 of the enum and after.
    pub open spec fn debug_name_part1(self) -> Seq<char> {
        match self {
            SyntaxKind::Analyse => "Analyse"@,
            SyntaxKind::Analyze => "Analyze"@,
            SyntaxKind::And => "And"@,
            SyntaxKind::Any => "Any"@,
            SyntaxKind::Array => "Array"@,
            SyntaxKind::As => "As"@,
            SyntaxKind::Asc => "Asc"@,
            SyntaxKind::Asensitive => "Asensitive"@,
            SyntaxKind::Assertion => "Assertion"@,
            SyntaxKind::Assignment => "Assignment"@,
            SyntaxKind::Asymmetric => "Asymmetric"@,
            SyntaxKind::Atomic => "Atomic"@,
            SyntaxKind::At => "At"@,
            SyntaxKind::Attach => "Attach"@,
            SyntaxKind::Attribute => "Attribute"@,
            SyntaxKind::Authorization => "Authorization"@,
            SyntaxKind::Backward => "Backward"@,
            SyntaxKind::Before => "Before"@,
            SyntaxKind::BeginP => "BeginP"@,
            SyntaxKind::Between => "Between"@,
            SyntaxKind::Bigint => "Bigint"@,
            SyntaxKind::Binary => "Binary"@,
            SyntaxKind::Bit => "Bit"@,
            SyntaxKind::BooleanP => "BooleanP"@,
            SyntaxKind::Both => "Both"@,
            SyntaxKind::Breadth => "Breadth"@,
            SyntaxKind::By => "By"@,
            SyntaxKind::Cache => "Cache"@,
            SyntaxKind::Call => "Call"@,
            SyntaxKind::Called => "Called"@,
            SyntaxKind::Cascade => "Cascade"@,
            SyntaxKind::Cascaded => "Cascaded"@,
            SyntaxKind::Case => "Case"@,
            SyntaxKind::Cast => "Cast"@,
            SyntaxKind::CatalogP => "CatalogP"@,
            SyntaxKind::Chain => "Chain"@,
            SyntaxKind::CharP => "CharP"@,
            SyntaxKind::Character => "Character"@,
            SyntaxKind::Characteristics => "Characteristics"@,
            SyntaxKind::Check => "Check"@,
            SyntaxKind::Checkpoint => "Checkpoint"@,
            SyntaxKind::Class => "Class"@,
            SyntaxKind::Close => "Close"@,
            SyntaxKind::Cluster => "Cluster"@,
            SyntaxKind::Coalesce => "Coalesce"@,
            SyntaxKind::Collate => "Collate"@,
            SyntaxKind::Collation => "Collation"@,
            SyntaxKind::Column => "Column"@,
            SyntaxKind::Columns => "Columns"@,
            SyntaxKind::Comment => "Comment"@,
            SyntaxKind::Comments => "Comments"@,
            SyntaxKind::Commit => "Commit"@,
            SyntaxKind::Committed => "Committed"@,
            SyntaxKind::Compression => "Compression"@,
            SyntaxKind::Concurrently => "Concurrently"@,
            SyntaxKind::Conditional => "Conditional"@,
            SyntaxKind::Configuration => "Configuration"@,
            SyntaxKind::Conflict => "Conflict"@,
            SyntaxKind::Connection => "Connection"@,
            SyntaxKind::Constraint => "Constraint"@,
            _ => self.debug_name_part2(),
        }
    }

    /// [`SyntaxKind::debug_name`] for the kinds of block 2 of the enum and after.
    fn debug_name_exec_part1(self) -> (r: &'static str)
        ensures
            r@ == self.debug_name_part1(),
    {
        match self {
            SyntaxKind::Analyse => "Analyse",
            SyntaxKind::Analyze => "Analyze",
            SyntaxKind::And => "And",
            SyntaxKind::Any => "Any",
            SyntaxKind::Array => "Array",
            SyntaxKind::As => "As",
            SyntaxKind::Asc => "Asc",
            SyntaxKind::Asensitive => "Asensitive",
            SyntaxKind::Assertion => "Assertion",
            SyntaxKind::Assignment => "Assignment",
            SyntaxKind::Asymmetric => "Asymmetric",
            SyntaxKind::Atomic => "Atomic",
            SyntaxKind::At => "At",
            SyntaxKind::Attach => "Attach",
            SyntaxKind::Attribute => "Attribute",
            SyntaxKind::Authorization => "Authorization",
            SyntaxKind::Backward => "Backward",
            SyntaxKind::Before => "Before",
            SyntaxKind::BeginP => "BeginP",
            SyntaxKind::Between => "Between",
            SyntaxKind::Bigint => "Bigint",
            SyntaxKind::Binary => "Binary",
            SyntaxKind::Bit => "Bit",
            SyntaxKind::BooleanP => "BooleanP",
            SyntaxKind::Both => "Both",
            SyntaxKind::Breadth => "Breadth",
            SyntaxKind::By => "By",
            SyntaxKind::Cache => "Cache",
            SyntaxKind::Call => "Call",
            SyntaxKind::Called => "Called",
            SyntaxKind::Cascade => "Cascade",
            SyntaxKind::Cascaded => "Cascaded",
            SyntaxKind::Case => "Case",
            SyntaxKind::Cast => "Cast",
            SyntaxKind::CatalogP => "CatalogP",
            SyntaxKind::Chain => "Chain",
            SyntaxKind::CharP => "CharP",
            SyntaxKind::Character => "Character",
            SyntaxKind::Characteristics => "Characteristics",
            SyntaxKind::Check => "Check",
            SyntaxKind::Checkpoint => "Checkpoint",
            SyntaxKind::Class => "Class",
            SyntaxKind::Close => "Close",
            SyntaxKind::Cluster => "Cluster",
            SyntaxKind::Coalesce => "Coalesce",
            SyntaxKind::Collate => "Collate",
            SyntaxKind::Collation => "Collation",
            SyntaxKind::Column => "Column",
            SyntaxKind::Columns => "Columns",
            SyntaxKind::Comment => "Comment",
            SyntaxKind::Comments => "Comments",
            SyntaxKind::Commit => "Commit",
            SyntaxKind::Committed => "Committed",
            SyntaxKind::Compression => "Compression",
            SyntaxKind::Concurrently => "Concurrently",
            SyntaxKind::Conditional => "Conditional",
            SyntaxKind::Configuration => "Configuration",
            SyntaxKind::Conflict => "Conflict",
            SyntaxKind::Connection => "Connection",
            SyntaxKind::Constraint => "Constraint",
            _ => self.debug_name_exec_part2(),
        }
    }

    /// [`SyntaxKind::debug_name_spec`] for the kinds of block 3 of the enum and after.
    pub open spec fn debug_name_part2(self) -> Seq<char> {
        match self {
            SyntaxKind::Constraints => "Constraints"@,
            SyntaxKind::ContentP => "ContentP"@,
            SyntaxKind::ContinueP => "ContinueP"@,
            SyntaxKind::ConversionP => "ConversionP"@,
            SyntaxKind::Copy => "Copy"@,
            SyntaxKind::Cost => "Cost"@,
            SyntaxKind::Create => "Create"@,
            SyntaxKind::Cross => "Cross"@,
            SyntaxKind::Csv => "Csv"@,
            SyntaxKind::Cube => "Cube"@,
            SyntaxKind::CurrentP => "CurrentP"@,
            SyntaxKind::CurrentCatalog => "CurrentCatalog"@,
            SyntaxKind::CurrentDate => "CurrentDate"@,
            SyntaxKind::CurrentRole => "CurrentRole"@,
            SyntaxKind::CurrentSchema => "CurrentSchema"@,
            SyntaxKind::CurrentTime => "CurrentTime"@,
            SyntaxKind::CurrentTimestamp => "CurrentTimestamp"@,
            SyntaxKind::CurrentUser => "CurrentUser"@,
            SyntaxKind::Cursor => "Cursor"@,
            SyntaxKind::Cycle => "Cycle"@,
            SyntaxKind::DataP => "DataP"@,
            SyntaxKind::Database => "Database"@,
            SyntaxKind::DayP => "DayP"@,
            SyntaxKind::Deallocate => "Deallocate"@,
            SyntaxKind::Dec => "Dec"@,
            SyntaxKind::DecimalP => "DecimalP"@,
            SyntaxKind::Declare => "Declare"@,
            SyntaxKind::Default => "Default"@,
            SyntaxKind::Defaults => "Defaults"@,
            SyntaxKind::Deferrable => "Deferrable"@,
            SyntaxKind::Deferred => "Deferred"@,
            SyntaxKind::Definer => "Definer"@,
            SyntaxKind::DeleteP => "DeleteP"@,
            SyntaxKind::Delimiter => "Delimiter"@,
            SyntaxKind::Delimiters => "Delimiters"@,
            SyntaxKind::Depends => "Depends"@,
            SyntaxKind::Depth => "Depth"@,
            SyntaxKind::Desc => "Desc"@,
            SyntaxKind::Detach => "Detach"@,
            SyntaxKind::Dictionary => "Dictionary"@,
            SyntaxKind::DisableP => "DisableP"@,
            SyntaxKind::Discard => "Discard"@,
            SyntaxKind::Distinct => "Distinct"@,
            SyntaxKind::Do => "Do"@,
            SyntaxKind::DocumentP => "DocumentP"@,
            SyntaxKind::DomainP => "DomainP"@,
            SyntaxKind::DoubleP => "DoubleP"@,
            SyntaxKind::Drop => "Drop"@,
            SyntaxKind::Each => "Each"@,
            SyntaxKind::Else => "Else"@,
            SyntaxKind::EmptyP => "EmptyP"@,
            SyntaxKind::EnableP => "EnableP"@,
            SyntaxKind::Encoding => "Encoding"@,
            SyntaxKind::Encrypted => "Encrypted"@,
            SyntaxKind::EndP => "EndP"@,
            SyntaxKind::Enforced => "Enforced"@,
            SyntaxKind::EnumP => "EnumP"@,
            SyntaxKind::ErrorP => "ErrorP"@,
            SyntaxKind::Escape => "Escape"@,
            SyntaxKind::Event => "Event"@,
            _ => self.debug_name_part3(),
        }
    }

    /// [`SyntaxKind::debug_name`] for the kinds of block 3 of the enum and after.
    fn debug_name_exec_part2(self) -> (r: &'static str)
        ensures
            r@ == self.debug_name_part2(),
    {
        match self {
            SyntaxKind::Constraints => "Constraints",
            SyntaxKind::ContentP => "ContentP",
            SyntaxKind::ContinueP => "ContinueP",
            SyntaxKind::ConversionP => "ConversionP",
            SyntaxKind::Copy => "Copy",
            SyntaxKind::Cost => "Cost",
            SyntaxKind::Create => "Create",
            SyntaxKind::Cross => "Cross",
            SyntaxKind::Csv => "Csv",
            SyntaxKind::Cube => "Cube",
            SyntaxKind::CurrentP => "CurrentP",
            SyntaxKind::CurrentCatalog => "CurrentCatalog",
            SyntaxKind::CurrentDate => "CurrentDate",
            SyntaxKind::CurrentRole => "CurrentRole",
            SyntaxKind::CurrentSchema => "CurrentSchema",
            SyntaxKind::CurrentTime => "CurrentTime",
            SyntaxKind::CurrentTimestamp => "CurrentTimestamp",
            SyntaxKind::CurrentUser => "CurrentUser",
            SyntaxKind::Cursor => "Cursor",
            SyntaxKind::Cycle => "Cycle",
            SyntaxKind::DataP => "DataP",
            SyntaxKind::Database => "Database",
            SyntaxKind::DayP => "DayP",
            SyntaxKind::Deallocate => "Deallocate",
            SyntaxKind::Dec => "Dec",
            SyntaxKind::DecimalP => "DecimalP",
            SyntaxKind::Declare => "Declare",
            SyntaxKind::Default => "Default",
            SyntaxKind::Defaults => "Defaults",
            SyntaxKind::Deferrable => "Deferrable",
            SyntaxKind::Deferred => "Deferred",
            SyntaxKind::Definer => "Definer",
            SyntaxKind::DeleteP => "DeleteP",
            SyntaxKind::Delimiter => "Delimiter",
            SyntaxKind::Delimiters => "Delimiters",
            SyntaxKind::Depends => "Depends",
            SyntaxKind::Depth => "Depth",
            SyntaxKind::Desc => "Desc",
            SyntaxKind::Detach => "Detach",
            SyntaxKind::Dictionary => "Dictionary",
            SyntaxKind::DisableP => "DisableP",
            SyntaxKind::Discard => "Discard",
            SyntaxKind::Distinct => "Distinct",
            SyntaxKind::Do => "Do",
            SyntaxKind::DocumentP => "DocumentP",
            SyntaxKind::DomainP => "DomainP",
            SyntaxKind::DoubleP => "DoubleP",
            SyntaxKind::Drop => "Drop",
            SyntaxKind::Each => "Each",
            SyntaxKind::Else => "Else",
            SyntaxKind::EmptyP => "EmptyP",
            SyntaxKind::EnableP => "EnableP",
            SyntaxKind::Encoding => "Encoding",
            SyntaxKind::Encrypted => "Encrypted",
            SyntaxKind::EndP => "EndP",
            SyntaxKind::Enforced => "Enforced",
            SyntaxKind::EnumP => "EnumP",
            SyntaxKind::ErrorP => "ErrorP",
            SyntaxKind::Escape => "Escape",
            SyntaxKind::Event => "Event",
            _ => self.debug_name_exec_part3(),
        }
    }

    /// [`SyntaxKind::debug_name_spec`] for the kinds of block 4 of the enum and after.
    pub open spec fn debug_name_part3(self) -> Seq<char> {
        match self {
            SyntaxKind::Except => "Except"@,
            SyntaxKind::Exclude => "Exclude"@,
            SyntaxKind::Excluding => "Excluding"@,
            SyntaxKind::Exclusive => "Exclusive"@,
            SyntaxKind::Execute => "Execute"@,
            SyntaxKind::Exists => "Exists"@,
            SyntaxKind::Explain => "Explain"@,
            SyntaxKind::Expression => "Expression"@,
            SyntaxKind::Extension => "Extension"@,
            SyntaxKind::External => "External"@,
            SyntaxKind::Extract => "Extract"@,
            SyntaxKind::FalseP => "FalseP"@,
            SyntaxKind::Family => "Family"@,
            SyntaxKind::Fetch => "Fetch"@,
            SyntaxKind::Filter => "Filter"@,
            SyntaxKind::Finalize => "Finalize"@,
            SyntaxKind::FirstP => "FirstP"@,
            SyntaxKind::FloatP => "FloatP"@,
            SyntaxKind::Following => "Following"@,
            SyntaxKind::For => "For"@,
            SyntaxKind::Force => "Force"@,
            SyntaxKind::Foreign => "Foreign"@,
            SyntaxKind::Format => "Format"@,
            SyntaxKind::Forward => "Forward"@,
            SyntaxKind::Freeze => "Freeze"@,
            SyntaxKind::From => "From"@,
            SyntaxKind::Full => "Full"@,
            SyntaxKind::Function => "Function"@,
            SyntaxKind::Functions => "Functions"@,
            SyntaxKind::Generated => "Generated"@,
            SyntaxKind::Global => "Global"@,
            SyntaxKind::Grant => "Grant"@,
            SyntaxKind::Granted => "Granted"@,
            SyntaxKind::Greatest => "Greatest"@,
            SyntaxKind::GroupP => "GroupP"@,
            SyntaxKind::Grouping => "Grouping"@,
            SyntaxKind::Groups => "Groups"@,
            SyntaxKind::Handler => "Handler"@,
            SyntaxKind::Having => "Having"@,
            SyntaxKind::HeaderP => "HeaderP"@,
            SyntaxKind::Hold => "Hold"@,
            SyntaxKind::HourP => "HourP"@,
            SyntaxKind::IdentityP => "IdentityP"@,
            SyntaxKind::IfP => "IfP"@,
            SyntaxKind::Ilike => "Ilike"@,
            SyntaxKind::Immediate => "Immediate"@,
            SyntaxKind::Immutable => "Immutable"@,
            SyntaxKind::ImplicitP => "ImplicitP"@,
            SyntaxKind::ImportP => "ImportP"@,
            SyntaxKind::InP => "InP"@,
            SyntaxKind::Include => "Include"@,
            SyntaxKind::Including => "Including"@,
            SyntaxKind::Increment => "Increment"@,
            SyntaxKind::Indent => "Indent"@,
            SyntaxKind::Index => "Index"@,
            SyntaxKind::Indexes => "Indexes"@,
            SyntaxKind::Inherit => "Inherit"@,
            SyntaxKind::Inherits => "Inherits"@,
            SyntaxKind::Initially => "Initially"@,
            SyntaxKind::InlineP => "InlineP"@,
            _ => self.debug_name_part4(),
        }
    }

    /// [`SyntaxKind::debug_name`] for the kinds of block 4 of the enum and after.
    fn debug_name_exec_part3(self) -> (r: &'static str)
        ensures
            r@ == self.debug_name_part3(),
    {
        match self {
            SyntaxKind::Except => "Except",
            SyntaxKind::Exclude => "Exclude",
            SyntaxKind::Excluding => "Excluding",
            SyntaxKind::Exclusive => "Exclusive",
            SyntaxKind::Execute => "Execute",
            SyntaxKind::Exists => "Exists",
            SyntaxKind::Explain => "Explain",
            SyntaxKind::Expression => "Expression",
            SyntaxKind::Extension => "Extension",
            SyntaxKind::External => "External",
            SyntaxKind::Extract => "Extract",
            SyntaxKind::FalseP => "FalseP",
            SyntaxKind::Family => "Family",
            SyntaxKind::Fetch => "Fetch",
            SyntaxKind::Filter => "Filter",
            SyntaxKind::Finalize => "Finalize",
            SyntaxKind::FirstP => "FirstP",
            SyntaxKind::FloatP => "FloatP",
            SyntaxKind::Following => "Following",
            SyntaxKind::For => "For",
            SyntaxKind::Force => "Force",
            SyntaxKind::Foreign => "Foreign",
            SyntaxKind::Format => "Format",
            SyntaxKind::Forward => "Forward",
            SyntaxKind::Freeze => "Freeze",
            SyntaxKind::From => "From",
            SyntaxKind::Full => "Full",
            SyntaxKind::Function => "Function",
            SyntaxKind::Functions => "Functions",
            SyntaxKind::Generated => "Generated",
            SyntaxKind::Global => "Global",
            SyntaxKind::Grant => "Grant",
            SyntaxKind::Granted => "Granted",
            SyntaxKind::Greatest => "Greatest",
            SyntaxKind::GroupP => "GroupP",
            SyntaxKind::Grouping => "Grouping",
            SyntaxKind::Groups => "Groups",
            SyntaxKind::Handler => "Handler",
            SyntaxKind::Having => "Having",
            SyntaxKind::HeaderP => "HeaderP",
            SyntaxKind::Hold => "Hold",
            SyntaxKind::HourP => "HourP",
            SyntaxKind::IdentityP => "IdentityP",
            SyntaxKind::IfP => "IfP",
            SyntaxKind::Ilike => "Ilike",
            SyntaxKind::Immediate => "Immediate",
            SyntaxKind::Immutable => "Immutable",
            SyntaxKind::ImplicitP => "ImplicitP",
            SyntaxKind::ImportP => "ImportP",
            SyntaxKind::InP => "InP",
            SyntaxKind::Include => "Include",
            SyntaxKind::Including => "Including",
            SyntaxKind::Increment => "Increment",
            SyntaxKind::Indent => "Indent",
            SyntaxKind::Index => "Index",
            SyntaxKind::Indexes => "Indexes",
            SyntaxKind::Inherit => "Inherit",
            SyntaxKind::Inherits => "Inherits",
            SyntaxKind::Initially => "Initially",
            SyntaxKind::InlineP => "InlineP",
            _ => self.debug_name_exec_part4(),
        }
    }

    /// [`SyntaxKind::debug_name_spec`] for the kinds of block 5 of the enum and after.
    pub open spec fn debug_name_part4(self) -> Seq<char> {
        match self {
            SyntaxKind::InnerP => "InnerP"@,
            SyntaxKind::Inout => "Inout"@,
            SyntaxKind::InputP => "InputP"@,
            SyntaxKind::Insensitive => "Insensitive"@,
            SyntaxKind::Insert => "Insert"@,
            SyntaxKind::Instead => "Instead"@,
            SyntaxKind::IntP => "IntP"@,
            SyntaxKind::Integer => "Integer"@,
            SyntaxKind::Intersect => "Intersect"@,
            SyntaxKind::Interval => "Interval"@,
            SyntaxKind::Into => "Into"@,
            SyntaxKind::Invoker => "Invoker"@,
            SyntaxKind::Is => "Is"@,
            SyntaxKind::Isnull => "Isnull"@,
            SyntaxKind::Isolation => "Isolation"@,
            SyntaxKind::Join => "Join"@,
            SyntaxKind::Json => "Json"@,
            SyntaxKind::JsonArray => "JsonArray"@,
            SyntaxKind::JsonArrayagg => "JsonArrayagg"@,
            SyntaxKind::JsonExists => "JsonExists"@,
            SyntaxKind::JsonObject => "JsonObject"@,
            SyntaxKind::JsonObjectagg => "JsonObjectagg"@,
            SyntaxKind::JsonQuery => "JsonQuery"@,
            SyntaxKind::JsonScalar => "JsonScalar"@,
            SyntaxKind::JsonSerialize => "JsonSerialize"@,
            SyntaxKind::JsonTable => "JsonTable"@,
            SyntaxKind::JsonValue => "JsonValue"@,
            SyntaxKind::Keep => "Keep"@,
            SyntaxKind::Key => "Key"@,
            SyntaxKind::Keys => "Keys"@,
            SyntaxKind::Label => "Label"@,
            SyntaxKind::Language => "Language"@,
            SyntaxKind::LargeP => "LargeP"@,
            SyntaxKind::LastP => "LastP"@,
            SyntaxKind::LateralP => "LateralP"@,
            SyntaxKind::Leading => "Leading"@,
            SyntaxKind::Leakproof => "Leakproof"@,
            SyntaxKind::Least => "Least"@,
            SyntaxKind::Left => "Left"@,
            SyntaxKind::Level => "Level"@,
            SyntaxKind::Like => "Like"@,
            SyntaxKind::Limit => "Limit"@,
            SyntaxKind::Listen => "Listen"@,
            SyntaxKind::Load => "Load"@,
            SyntaxKind::Local => "Local"@,
            SyntaxKind::Localtime => "Localtime"@,
            SyntaxKind::Localtimestamp => "Localtimestamp"@,
            SyntaxKind::Location => "Location"@,
            SyntaxKind::LockP => "LockP"@,
            SyntaxKind::Locked => "Locked"@,
            SyntaxKind::Logged => "Logged"@,
            SyntaxKind::Mapping => "Mapping"@,
            SyntaxKind::Match => "Match"@,
            SyntaxKind::Matched => "Matched"@,
            SyntaxKind::Materialized => "Materialized"@,
            SyntaxKind::Maxvalue => "Maxvalue"@,
            SyntaxKind::Merge => "Merge"@,
            SyntaxKind::MergeAction => "MergeAction"@,
            SyntaxKind::Method => "Method"@,
            SyntaxKind::MinuteP => "MinuteP"@,
            _ => self.debug_name_part5(),
        }
    }

    /// [`SyntaxKind::debug_name`] for the kinds of block 5 of the enum and after.
    fn debug_name_exec_part4(self) -> (r: &'static str)
        ensures
            r@ == self.debug_name_part4(),
    {
        match self {
            SyntaxKind::InnerP => "InnerP",
            SyntaxKind::Inout => "Inout",
            SyntaxKind::InputP => "InputP",
            SyntaxKind::Insensitive => "Insensitive",
            SyntaxKind::Insert => "Insert",
            SyntaxKind::Instead => "Instead",
            SyntaxKind::IntP => "IntP",
            SyntaxKind::Integer => "Integer",
            SyntaxKind::Intersect => "Intersect",
            SyntaxKind::Interval => "Interval",
            SyntaxKind::Into => "Into",
            SyntaxKind::Invoker => "Invoker",
            SyntaxKind::Is => "Is",
            SyntaxKind::Isnull => "Isnull",
            SyntaxKind::Isolation => "Isolation",
            SyntaxKind::Join => "Join",
            SyntaxKind::Json => "Json",
            SyntaxKind::JsonArray => "JsonArray",
            SyntaxKind::JsonArrayagg => "JsonArrayagg",
            SyntaxKind::JsonExists => "JsonExists",
            SyntaxKind::JsonObject => "JsonObject",
            SyntaxKind::JsonObjectagg => "JsonObjectagg",
            SyntaxKind::JsonQuery => "JsonQuery",
            SyntaxKind::JsonScalar => "JsonScalar",
            SyntaxKind::JsonSerialize => "JsonSerialize",
            SyntaxKind::JsonTable => "JsonTable",
            SyntaxKind::JsonValue => "JsonValue",
            SyntaxKind::Keep => "Keep",
            SyntaxKind::Key => "Key",
            SyntaxKind::Keys => "Keys",
            SyntaxKind::Label => "Label",
            SyntaxKind::Language => "Language",
            SyntaxKind::LargeP => "LargeP",
            SyntaxKind::LastP => "LastP",
            SyntaxKind::LateralP => "LateralP",
            SyntaxKind::Leading => "Leading",
            SyntaxKind::Leakproof => "Leakproof",
            SyntaxKind::Least => "Least",
            SyntaxKind::Left => "Left",
            SyntaxKind::Level => "Level",
            SyntaxKind::Like => "Like",
            SyntaxKind::Limit => "Limit",
            SyntaxKind::Listen => "Listen",
            SyntaxKind::Load => "Load",
            SyntaxKind::Local => "Local",
            SyntaxKind::Localtime => "Localtime",
            SyntaxKind::Localtimestamp => "Localtimestamp",
            SyntaxKind::Location => "Location",
            SyntaxKind::LockP => "LockP",
            SyntaxKind::Locked => "Locked",
            SyntaxKind::Logged => "Logged",
            SyntaxKind::Mapping => "Mapping",
            SyntaxKind::Match => "Match",
            SyntaxKind::Matched => "Matched",
            SyntaxKind::Materialized => "Materialized",
            SyntaxKind::Maxvalue => "Maxvalue",
            SyntaxKind::Merge => "Merge",
            SyntaxKind::MergeAction => "MergeAction",
            SyntaxKind::Method => "Method",
            SyntaxKind::MinuteP => "MinuteP",
            _ => self.debug_name_exec_part5(),
        }
    }

    /// [`SyntaxKind::debug_name_spec`] for the kinds of block 6 of the enum and after.
    pub open spec fn debug_name_part5(self) -> Seq<char> {
        match self {
            SyntaxKind::Minvalue => "Minvalue"@,
            SyntaxKind::Mode => "Mode"@,
            SyntaxKind::MonthP => "MonthP"@,
            SyntaxKind::Move => "Move"@,
            SyntaxKind::NameP => "NameP"@,
            SyntaxKind::Names => "Names"@,
            SyntaxKind::National => "National"@,
            SyntaxKind::Natural => "Natural"@,
            SyntaxKind::Nchar => "Nchar"@,
            SyntaxKind::Nested => "Nested"@,
            SyntaxKind::New => "New"@,
            SyntaxKind::Next => "Next"@,
            SyntaxKind::Nfc => "Nfc"@,
            SyntaxKind::Nfd => "Nfd"@,
            SyntaxKind::Nfkc => "Nfkc"@,
            SyntaxKind::Nfkd => "Nfkd"@,
            SyntaxKind::No => "No"@,
            SyntaxKind::NoneKw => "None"@,
            SyntaxKind::Normalize => "Normalize"@,
            SyntaxKind::Normalized => "Normalized"@,
            SyntaxKind::Not => "Not"@,
            SyntaxKind::Nothing => "Nothing"@,
            SyntaxKind::Notify => "Notify"@,
            SyntaxKind::Notnull => "Notnull"@,
            SyntaxKind::Nowait => "Nowait"@,
            SyntaxKind::NullP => "NullP"@,
            SyntaxKind::Nullif => "Nullif"@,
            SyntaxKind::NullsP => "NullsP"@,
            SyntaxKind::Numeric => "Numeric"@,
            SyntaxKind::ObjectP => "ObjectP"@,
            SyntaxKind::ObjectsP => "ObjectsP"@,
            SyntaxKind::Of => "Of"@,
            SyntaxKind::Off => "Off"@,
            SyntaxKind::Offset => "Offset"@,
            SyntaxKind::Oids => "Oids"@,
            SyntaxKind::Old => "Old"@,
            SyntaxKind::Omit => "Omit"@,
            SyntaxKind::On => "On"@,
            SyntaxKind::Only => "Only"@,
            SyntaxKind::Operator => "Operator"@,
            SyntaxKind::Option => "Option"@,
            SyntaxKind::Options => "Options"@,
            SyntaxKind::Or => "Or"@,
            SyntaxKind::Order => "Order"@,
            SyntaxKind::Ordinality => "Ordinality"@,
            SyntaxKind::Others => "Others"@,
            SyntaxKind::OutP => "OutP"@,
            SyntaxKind::OuterP => "OuterP"@,
            SyntaxKind::Over => "Over"@,
            SyntaxKind::Overlaps => "Overlaps"@,
            SyntaxKind::Overlay => "Overlay"@,
            SyntaxKind::Overriding => "Overriding"@,
            SyntaxKind::Owned => "Owned"@,
            SyntaxKind::Owner => "Owner"@,
            SyntaxKind::Parallel => "Parallel"@,
            SyntaxKind::Parameter => "Parameter"@,
            SyntaxKind::Parser => "Parser"@,
            SyntaxKind::Partial => "Partial"@,
            SyntaxKind::Partition => "Partition"@,
            SyntaxKind::Passing => "Passing"@,
            _ => self.debug_name_part6(),
        }
    }

    /// [`SyntaxKind::debug_name`] for the kinds of block 6 of the enum and after.
    fn debug_name_exec_part5(self) -> (r: &'static str)
        ensures
            r@ == self.debug_name_part5(),
    {
        match self {
            SyntaxKind::Minvalue => "Minvalue",
            SyntaxKind::Mode => "Mode",
            SyntaxKind::MonthP => "MonthP",
            SyntaxKind::Move => "Move",
            SyntaxKind::NameP => "NameP",
            SyntaxKind::Names => "Names",
            SyntaxKind::National => "National",
            SyntaxKind::Natural => "Natural",
            SyntaxKind::Nchar => "Nchar",
            SyntaxKind::Nested => "Nested",
            SyntaxKind::New => "New",
            SyntaxKind::Next => "Next",
            SyntaxKind::Nfc => "Nfc",
            SyntaxKind::Nfd => "Nfd",
            SyntaxKind::Nfkc => "Nfkc",
            SyntaxKind::Nfkd => "Nfkd",
            SyntaxKind::No => "No",
            SyntaxKind::NoneKw => "None",
            SyntaxKind::Normalize => "Normalize",
            SyntaxKind::Normalized => "Normalized",
            SyntaxKind::Not => "Not",
            SyntaxKind::Nothing => "Nothing",
            SyntaxKind::Notify => "Notify",
            SyntaxKind::Notnull => "Notnull",
            SyntaxKind::Nowait => "Nowait",
            SyntaxKind::NullP => "NullP",
            SyntaxKind::Nullif => "Nullif",
            SyntaxKind::NullsP => "NullsP",
            SyntaxKind::Numeric => "Numeric",
            SyntaxKind::ObjectP => "ObjectP",
            SyntaxKind::ObjectsP => "ObjectsP",
            SyntaxKind::Of => "Of",
            SyntaxKind::Off => "Off",
            SyntaxKind::Offset => "Offset",
            SyntaxKind::Oids => "Oids",
            SyntaxKind::Old => "Old",
            SyntaxKind::Omit => "Omit",
            SyntaxKind::On => "On",
            SyntaxKind::Only => "Only",
            SyntaxKind::Operator => "Operator",
            SyntaxKind::Option => "Option",
            SyntaxKind::Options => "Options",
            SyntaxKind::Or => "Or",
            SyntaxKind::Order => "Order",
            SyntaxKind::Ordinality => "Ordinality",
            SyntaxKind::Others => "Others",
            SyntaxKind::OutP => "OutP",
            SyntaxKind::OuterP => "OuterP",
            SyntaxKind::Over => "Over",
            SyntaxKind::Overlaps => "Overlaps",
            SyntaxKind::Overlay => "Overlay",
            SyntaxKind::Overriding => "Overriding",
            SyntaxKind::Owned => "Owned",
            SyntaxKind::Owner => "Owner",
            SyntaxKind::Parallel => "Parallel",
            SyntaxKind::Parameter => "Parameter",
            SyntaxKind::Parser => "Parser",
            SyntaxKind::Partial => "Partial",
            SyntaxKind::Partition => "Partition",
            SyntaxKind::Passing => "Passing",
            _ => self.debug_name_exec_part6(),
        }
    }

    /// [`SyntaxKind::debug_name_spec`] for the kinds of block 7 of the enum and after.
    pub open spec fn debug_name_part6(self) -> Seq<char> {
        match self {
            SyntaxKind::Password => "Password"@,
            SyntaxKind::Path => "Path"@,
            SyntaxKind::Period => "Period"@,
            SyntaxKind::Placing => "Placing"@,
            SyntaxKind::Plan => "Plan"@,
            SyntaxKind::Plans => "Plans"@,
            SyntaxKind::Policy => "Policy"@,
            SyntaxKind::Position => "Position"@,
            SyntaxKind::Preceding => "Preceding"@,
            SyntaxKind::Precision => "Precision"@,
            SyntaxKind::Preserve => "Preserve"@,
            SyntaxKind::Prepare => "Prepare"@,
            SyntaxKind::Prepared => "Prepared"@,
            SyntaxKind::Primary => "Primary"@,
            SyntaxKind::Prior => "Prior"@,
            SyntaxKind::Privileges => "Privileges"@,
            SyntaxKind::Procedural => "Procedural"@,
            SyntaxKind::Procedure => "Procedure"@,
            SyntaxKind::Procedures => "Procedures"@,
            SyntaxKind::Program => "Program"@,
            SyntaxKind::Publication => "Publication"@,
            SyntaxKind::Quote => "Quote"@,
            SyntaxKind::Quotes => "Quotes"@,
            SyntaxKind::Range => "Range"@,
            SyntaxKind::Read => "Read"@,
            SyntaxKind::Real => "Real"@,
            SyntaxKind::Reassign => "Reassign"@,
            SyntaxKind::Recursive => "Recursive"@,
            SyntaxKind::RefP => "RefP"@,
            SyntaxKind::References => "References"@,
            SyntaxKind::Referencing => "Referencing"@,
            SyntaxKind::Refresh => "Refresh"@,
            SyntaxKind::Reindex => "Reindex"@,
            SyntaxKind::RelativeP => "RelativeP"@,
            SyntaxKind::Release => "Release"@,
            SyntaxKind::Rename => "Rename"@,
            SyntaxKind::Repeatable => "Repeatable"@,
            SyntaxKind::Replace => "Replace"@,
            SyntaxKind::Replica => "Replica"@,
            SyntaxKind::Reset => "Reset"@,
            SyntaxKind::Restart => "Restart"@,
            SyntaxKind::Restrict => "Restrict"@,
            SyntaxKind::Return => "Return"@,
            SyntaxKind::Returning => "Returning"@,
            SyntaxKind::Returns => "Returns"@,
            SyntaxKind::Revoke => "Revoke"@,
            SyntaxKind::Right => "Right"@,
            SyntaxKind::Role => "Role"@,
            SyntaxKind::Rollback => "Rollback"@,
            SyntaxKind::Rollup => "Rollup"@,
            SyntaxKind::Routine => "Routine"@,
            SyntaxKind::Routines => "Routines"@,
            SyntaxKind::Row => "Row"@,
            SyntaxKind::Rows => "Rows"@,
            SyntaxKind::Rule => "Rule"@,
            SyntaxKind::Savepoint => "Savepoint"@,
            SyntaxKind::Scalar => "Scalar"@,
            SyntaxKind::Schema => "Schema"@,
            SyntaxKind::Schemas => "Schemas"@,
            SyntaxKind::Scroll => "Scroll"@,
            _ => self.debug_name_part7(),
        }
    }

    /// [`SyntaxKind::debug_name`] for the kinds of block 7 of the enum and after.
    fn debug_name_exec_part6(self) -> (r: &'static str)
        ensures
            r@ == self.debug_name_part6(),
    {
        match self {
            SyntaxKind::Password => "Password",
            SyntaxKind::Path => "Path",
            SyntaxKind::Period => "Period",
            SyntaxKind::Placing => "Placing",
            SyntaxKind::Plan => "Plan",
            SyntaxKind::Plans => "Plans",
            SyntaxKind::Policy => "Policy",
            SyntaxKind::Position => "Position",
            SyntaxKind::Preceding => "Preceding",
            SyntaxKind::Precision => "Precision",
            SyntaxKind::Preserve => "Preserve",
            SyntaxKind::Prepare => "Prepare",
            SyntaxKind::Prepared => "Prepared",
            SyntaxKind::Primary => "Primary",
            SyntaxKind::Prior => "Prior",
            SyntaxKind::Privileges => "Privileges",
            SyntaxKind::Procedural => "Procedural",
            SyntaxKind::Procedure => "Procedure",
            SyntaxKind::Procedures => "Procedures",
            SyntaxKind::Program => "Program",
            SyntaxKind::Publication => "Publication",
            SyntaxKind::Quote => "Quote",
            SyntaxKind::Quotes => "Quotes",
            SyntaxKind::Range => "Range",
            SyntaxKind::Read => "Read",
            SyntaxKind::Real => "Real",
            SyntaxKind::Reassign => "Reassign",
            SyntaxKind::Recursive => "Recursive",
            SyntaxKind::RefP => "RefP",
            SyntaxKind::References => "References",
            SyntaxKind::Referencing => "Referencing",
            SyntaxKind::Refresh => "Refresh",
            SyntaxKind::Reindex => "Reindex",
            SyntaxKind::RelativeP => "RelativeP",
            SyntaxKind::Release => "Release",
            SyntaxKind::Rename => "Rename",
            SyntaxKind::Repeatable => "Repeatable",
            SyntaxKind::Replace => "Replace",
            SyntaxKind::Replica => "Replica",
            SyntaxKind::Reset => "Reset",
            SyntaxKind::Restart => "Restart",
            SyntaxKind::Restrict => "Restrict",
            SyntaxKind::Return => "Return",
            SyntaxKind::Returning => "Returning",
            SyntaxKind::Returns => "Returns",
            SyntaxKind::Revoke => "Revoke",
            SyntaxKind::Right => "Right",
            SyntaxKind::Role => "Role",
            SyntaxKind::Rollback => "Rollback",
            SyntaxKind::Rollup => "Rollup",
            SyntaxKind::Routine => "Routine",
            SyntaxKind::Routines => "Routines",
            SyntaxKind::Row => "Row",
            SyntaxKind::Rows => "Rows",
            SyntaxKind::Rule => "Rule",
            SyntaxKind::Savepoint => "Savepoint",
            SyntaxKind::Scalar => "Scalar",
            SyntaxKind::Schema => "Schema",
            SyntaxKind::Schemas => "Schemas",
            SyntaxKind::Scroll => "Scroll",
            _ => self.debug_name_exec_part7(),
        }
    }

    /// [`SyntaxKind::debug_name_spec`] for the kinds of block 8 of the enum and after.
    pub open spec fn debug_name_part7(self) -> Seq<char> {
        match self {
            SyntaxKind::Search => "Search"@,
            SyntaxKind::SecondP => "SecondP"@,
            SyntaxKind::Security => "Security"@,
            SyntaxKind::Select => "Select"@,
            SyntaxKind::Sequence => "Sequence"@,
            SyntaxKind::Sequences => "Sequences"@,
            SyntaxKind::Serializable => "Serializable"@,
            SyntaxKind::Server => "Server"@,
            SyntaxKind::Session => "Session"@,
            SyntaxKind::SessionUser => "SessionUser"@,
            SyntaxKind::SetKw => "Set"@,
            SyntaxKind::Sets => "Sets"@,
            SyntaxKind::Setof => "Setof"@,
            SyntaxKind::Share => "Share"@,
            SyntaxKind::Show => "Show"@,
            SyntaxKind::Similar => "Similar"@,
            SyntaxKind::Simple => "Simple"@,
            SyntaxKind::Skip => "Skip"@,
            SyntaxKind::Smallint => "Smallint"@,
            SyntaxKind::Snapshot => "Snapshot"@,
            SyntaxKind::SomeKw => "Some"@,
            SyntaxKind::Source => "Source"@,
            SyntaxKind::SqlP => "SqlP"@,
            SyntaxKind::Stable => "Stable"@,
            SyntaxKind::StandaloneP => "StandaloneP"@,
            SyntaxKind::Start => "Start"@,
            SyntaxKind::Statement => "Statement"@,
            SyntaxKind::Statistics => "Statistics"@,
            SyntaxKind::Stdin => "Stdin"@,
            SyntaxKind::Stdout => "Stdout"@,
            SyntaxKind::Storage => "Storage"@,
            SyntaxKind::Stored => "Stored"@,
            SyntaxKind::StrictP => "StrictP"@,
            SyntaxKind::StringP => "StringP"@,
            SyntaxKind::StripP => "StripP"@,
            SyntaxKind::Subscription => "Subscription"@,
            SyntaxKind::Substring => "Substring"@,
            SyntaxKind::Support => "Support"@,
            SyntaxKind::Symmetric => "Symmetric"@,
            SyntaxKind::Sysid => "Sysid"@,
            SyntaxKind::SystemP => "SystemP"@,
            SyntaxKind::SystemUser => "SystemUser"@,
            SyntaxKind::Table => "Table"@,
            SyntaxKind::Tables => "Tables"@,
            SyntaxKind::Tablesample => "Tablesample"@,
            SyntaxKind::Tablespace => "Tablespace"@,
            SyntaxKind::Target => "Target"@,
            SyntaxKind::Temp => "Temp"@,
            SyntaxKind::Template => "Template"@,
            SyntaxKind::Temporary => "Temporary"@,
            SyntaxKind::TextP => "TextP"@,
            SyntaxKind::Then => "Then"@,
            SyntaxKind::Ties => "Ties"@,
            SyntaxKind::Time => "Time"@,
            SyntaxKind::Timestamp => "Timestamp"@,
            SyntaxKind::To => "To"@,
            SyntaxKind::Trailing => "Trailing"@,
            SyntaxKind::Transaction => "Transaction"@,
            SyntaxKind::Transform => "Transform"@,
            SyntaxKind::Treat => "Treat"@,
            _ => self.debug_name_part8(),
        }
    }

    /// [`SyntaxKind::debug_name`] for the kinds of block 8 of the enum and after.
    fn debug_name_exec_part7(self) -> (r: &'static str)
        ensures
            r@ == self.debug_name_part7(),
    {
        match self {
            SyntaxKind::Search => "Search",
            SyntaxKind::SecondP => "SecondP",
            SyntaxKind::Security => "Security",
            SyntaxKind::Select => "Select",
            SyntaxKind::Sequence => "Sequence",
            SyntaxKind::Sequences => "Sequences",
            SyntaxKind::Serializable => "Serializable",
            SyntaxKind::Server => "Server",
            SyntaxKind::Session => "Session",
            SyntaxKind::SessionUser => "SessionUser",
            SyntaxKind::SetKw => "Set",
            SyntaxKind::Sets => "Sets",
            SyntaxKind::Setof => "Setof",
            SyntaxKind::Share => "Share",
            SyntaxKind::Show => "Show",
            SyntaxKind::Similar => "Similar",
            SyntaxKind::Simple => "Simple",
            SyntaxKind::Skip => "Skip",
            SyntaxKind::Smallint => "Smallint",
            SyntaxKind::Snapshot => "Snapshot",
            SyntaxKind::SomeKw => "Some",
            SyntaxKind::Source => "Source",
            SyntaxKind::SqlP => "SqlP",
            SyntaxKind::Stable => "Stable",
            SyntaxKind::StandaloneP => "StandaloneP",
            SyntaxKind::Start => "Start",
            SyntaxKind::Statement => "Statement",
            SyntaxKind::Statistics => "Statistics",
            SyntaxKind::Stdin => "Stdin",
            SyntaxKind::Stdout => "Stdout",
            SyntaxKind::Storage => "Storage",
            SyntaxKind::Stored => "Stored",
            SyntaxKind::StrictP => "StrictP",
            SyntaxKind::StringP => "StringP",
            SyntaxKind::StripP => "StripP",
            SyntaxKind::Subscription => "Subscription",
            SyntaxKind::Substring => "Substring",
            SyntaxKind::Support => "Support",
            SyntaxKind::Symmetric => "Symmetric",
            SyntaxKind::Sysid => "Sysid",
            SyntaxKind::SystemP => "SystemP",
            SyntaxKind::SystemUser => "SystemUser",
            SyntaxKind::Table => "Table",
            SyntaxKind::Tables => "Tables",
            SyntaxKind::Tablesample => "Tablesample",
            SyntaxKind::Tablespace => "Tablespace",
            SyntaxKind::Target => "Target",
            SyntaxKind::Temp => "Temp",
            SyntaxKind::Template => "Template",
            SyntaxKind::Temporary => "Temporary",
            SyntaxKind::TextP => "TextP",
            SyntaxKind::Then => "Then",
            SyntaxKind::Ties => "Ties",
            SyntaxKind::Time => "Time",
            SyntaxKind::Timestamp => "Timestamp",
            SyntaxKind::To => "To",
            SyntaxKind::Trailing => "Trailing",
            SyntaxKind::Transaction => "Transaction",
            SyntaxKind::Transform => "Transform",
            SyntaxKind::Treat => "Treat",
            _ => self.debug_name_exec_part8(),
        }
    }

    /// [`SyntaxKind::debug_name_spec`] for the kinds of block 9 of the enum and after.
    pub open spec fn debug_name_part8(self) -> Seq<char> {
        match self {
            SyntaxKind::Trigger => "Trigger"@,
            SyntaxKind::Trim => "Trim"@,
            SyntaxKind::TrueP => "TrueP"@,
            SyntaxKind::Truncate => "Truncate"@,
            SyntaxKind::Trusted => "Trusted"@,
            SyntaxKind::TypeP => "TypeP"@,
            SyntaxKind::TypesP => "TypesP"@,
            SyntaxKind::Uescape => "Uescape"@,
            SyntaxKind::Unbounded => "Unbounded"@,
            SyntaxKind::Unconditional => "Unconditional"@,
            SyntaxKind::Uncommitted => "Uncommitted"@,
            SyntaxKind::Unencrypted => "Unencrypted"@,
            SyntaxKind::Union => "Union"@,
            SyntaxKind::Unique => "Unique"@,
            SyntaxKind::Unknown => "Unknown"@,
            SyntaxKind::Unlisten => "Unlisten"@,
            SyntaxKind::Unlogged => "Unlogged"@,
            SyntaxKind::Until => "Until"@,
            SyntaxKind::Update => "Update"@,
            SyntaxKind::User => "User"@,
            SyntaxKind::Using => "Using"@,
            SyntaxKind::Vacuum => "Vacuum"@,
            SyntaxKind::Valid => "Valid"@,
            SyntaxKind::Validate => "Validate"@,
            SyntaxKind::Validator => "Validator"@,
            SyntaxKind::ValueP => "ValueP"@,
            SyntaxKind::Values => "Values"@,
            SyntaxKind::Varchar => "Varchar"@,
            SyntaxKind::Variadic => "Variadic"@,
            SyntaxKind::Varying => "Varying"@,
            SyntaxKind::Verbose => "Verbose"@,
            SyntaxKind::VersionP => "VersionP"@,
            SyntaxKind::View => "View"@,
            SyntaxKind::Views => "Views"@,
            SyntaxKind::Virtual => "Virtual"@,
            SyntaxKind::Volatile => "Volatile"@,
            SyntaxKind::When => "When"@,
            SyntaxKind::Where => "Where"@,
            SyntaxKind::WhitespaceP => "WhitespaceP"@,
            SyntaxKind::Window => "Window"@,
            SyntaxKind::With => "With"@,
            SyntaxKind::Within => "Within"@,
            SyntaxKind::Without => "Without"@,
            SyntaxKind::Work => "Work"@,
            SyntaxKind::Wrapper => "Wrapper"@,
            SyntaxKind::Write => "Write"@,
            SyntaxKind::XmlP => "XmlP"@,
            SyntaxKind::Xmlattributes => "Xmlattributes"@,
            SyntaxKind::Xmlconcat => "Xmlconcat"@,
            SyntaxKind::Xmlelement => "Xmlelement"@,
            SyntaxKind::Xmlexists => "Xmlexists"@,
            SyntaxKind::Xmlforest => "Xmlforest"@,
            SyntaxKind::Xmlnamespaces => "Xmlnamespaces"@,
            SyntaxKind::Xmlparse => "Xmlparse"@,
            SyntaxKind::Xmlpi => "Xmlpi"@,
            SyntaxKind::Xmlroot => "Xmlroot"@,
            SyntaxKind::Xmlserialize => "Xmlserialize"@,
            SyntaxKind::Xmltable => "Xmltable"@,
            SyntaxKind::YearP => "YearP"@,
            SyntaxKind::YesP => "YesP"@,
            _ => self.debug_name_part9(),
        }
    }

    /// [`SyntaxKind::debug_name`] for the kinds of block 9 of the enum and after.
    fn debug_name_exec_part8(self) -> (r: &'static str)
        ensures
            r@ == self.debug_name_part8(),
    {
        match self {
            SyntaxKind::Trigger => "Trigger",
            SyntaxKind::Trim => "Trim",
            SyntaxKind::TrueP => "TrueP",
            SyntaxKind::Truncate => "Truncate",
            SyntaxKind::Trusted => "Trusted",
            SyntaxKind::TypeP => "TypeP",
            SyntaxKind::TypesP => "TypesP",
            SyntaxKind::Uescape => "Uescape",
            SyntaxKind::Unbounded => "Unbounded",
            SyntaxKind::Unconditional => "Unconditional",
            SyntaxKind::Uncommitted => "Uncommitted",
            SyntaxKind::Unencrypted => "Unencrypted",
            SyntaxKind::Union => "Union",
            SyntaxKind::Unique => "Unique",
            SyntaxKind::Unknown => "Unknown",
            SyntaxKind::Unlisten => "Unlisten",
            SyntaxKind::Unlogged => "Unlogged",
            SyntaxKind::Until => "Until",
            SyntaxKind::Update => "Update",
            SyntaxKind::User => "User",
            SyntaxKind::Using => "Using",
            SyntaxKind::Vacuum => "Vacuum",
            SyntaxKind::Valid => "Valid",
            SyntaxKind::Validate => "Validate",
            SyntaxKind::Validator => "Validator",
            SyntaxKind::ValueP => "ValueP",
            SyntaxKind::Values => "Values",
            SyntaxKind::Varchar => "Varchar",
            SyntaxKind::Variadic => "Variadic",
            SyntaxKind::Varying => "Varying",
            SyntaxKind::Verbose => "Verbose",
            SyntaxKind::VersionP => "VersionP",
            SyntaxKind::View => "View",
            SyntaxKind::Views => "Views",
            SyntaxKind::Virtual => "Virtual",
            SyntaxKind::Volatile => "Volatile",
            SyntaxKind::When => "When",
            SyntaxKind::Where => "Where",
            SyntaxKind::WhitespaceP => "WhitespaceP",
            SyntaxKind::Window => "Window",
            SyntaxKind::With => "With",
            SyntaxKind::Within => "Within",
            SyntaxKind::Without => "Without",
            SyntaxKind::Work => "Work",
            SyntaxKind::Wrapper => "Wrapper",
            SyntaxKind::Write => "Write",
            SyntaxKind::XmlP => "XmlP",
            SyntaxKind::Xmlattributes => "Xmlattributes",
            SyntaxKind::Xmlconcat => "Xmlconcat",
            SyntaxKind::Xmlelement => "Xmlelement",
            SyntaxKind::Xmlexists => "Xmlexists",
            SyntaxKind::Xmlforest => "Xmlforest",
            SyntaxKind::Xmlnamespaces => "Xmlnamespaces",
            SyntaxKind::Xmlparse => "Xmlparse",
            SyntaxKind::Xmlpi => "Xmlpi",
            SyntaxKind::Xmlroot => "Xmlroot",
            SyntaxKind::Xmlserialize => "Xmlserialize",
            SyntaxKind::Xmltable => "Xmltable",
            SyntaxKind::YearP => "YearP",
            SyntaxKind::YesP => "YesP",
            _ => self.debug_name_exec_part9(),
        }
    }

    /// [`SyntaxKind::debug_name_spec`] for the kinds of block 10 of the enum and after.
    pub open spec fn debug_name_part9(self) -> Seq<char> {
        match self {
            SyntaxKind::Zone => "Zone"@,
            SyntaxKind::FormatLa => "FormatLa"@,
            SyntaxKind::NotLa => "NotLa"@,
            SyntaxKind::NullsLa => "NullsLa"@,
            SyntaxKind::WithLa => "WithLa"@,
            SyntaxKind::WithoutLa => "WithoutLa"@,
            SyntaxKind::ModeTypeName => "ModeTypeName"@,
            SyntaxKind::ModePlpgsqlExpr => "ModePlpgsqlExpr"@,
            SyntaxKind::ModePlpgsqlAssign1 => "ModePlpgsqlAssign1"@,
            SyntaxKind::ModePlpgsqlAssign2 => "ModePlpgsqlAssign2"@,
            SyntaxKind::ModePlpgsqlAssign3 => "ModePlpgsqlAssign3"@,
            SyntaxKind::Uminus => "Uminus"@,
            SyntaxKind::AlterCollationStmt => "AlterCollationStmt"@,
            SyntaxKind::AlterDatabaseRefreshCollStmt => "AlterDatabaseRefreshCollStmt"@,
            SyntaxKind::AlterDatabaseSetStmt => "AlterDatabaseSetStmt"@,
            SyntaxKind::AlterDatabaseStmt => "AlterDatabaseStmt"@,
            SyntaxKind::AlterDefaultPrivilegesStmt => "AlterDefaultPrivilegesStmt"@,
            SyntaxKind::AlterDomainStmt => "AlterDomainStmt"@,
            SyntaxKind::AlterEventTrigStmt => "AlterEventTrigStmt"@,
            SyntaxKind::AlterExtensionStmt => "AlterExtensionStmt"@,
            SyntaxKind::AlterFdwStmt => "AlterFdwStmt"@,
            SyntaxKind::AlterForeignServerStmt => "AlterForeignServerStmt"@,
            SyntaxKind::AlterFunctionStmt => "AlterFunctionStmt"@,
            SyntaxKind::AlterOpFamilyStmt => "AlterOpFamilyStmt"@,
            SyntaxKind::AlterOperatorStmt => "AlterOperatorStmt"@,
            SyntaxKind::AlterPolicyStmt => "AlterPolicyStmt"@,
            SyntaxKind::AlterPublicationStmt => "AlterPublicationStmt"@,
            SyntaxKind::AlterRoleStmt => "AlterRoleStmt"@,
            SyntaxKind::AlterSeqStmt => "AlterSeqStmt"@,
            SyntaxKind::AlterStatsStmt => "AlterStatsStmt"@,
            SyntaxKind::AlterSubscriptionStmt => "AlterSubscriptionStmt"@,
            SyntaxKind::AlterSystemStmt => "AlterSystemStmt"@,
            SyntaxKind::AlterTableStmt => "AlterTableStmt"@,
            SyntaxKind::AlterTypeStmt => "AlterTypeStmt"@,
            SyntaxKind::AlterUserMappingStmt => "AlterUserMappingStmt"@,
            SyntaxKind::CallStmt => "CallStmt"@,
            SyntaxKind::CheckPointStmt => "CheckPointStmt"@,
            SyntaxKind::ClusterStmt => "ClusterStmt"@,
            SyntaxKind::CommentStmt => "CommentStmt"@,
            SyntaxKind::ConstraintsSetStmt => "ConstraintsSetStmt"@,
            SyntaxKind::CopyStmt => "CopyStmt"@,
            SyntaxKind::CreateAmStmt => "CreateAmStmt"@,
            SyntaxKind::CreateCastStmt => "CreateCastStmt"@,
            SyntaxKind::CreateConversionStmt => "CreateConversionStmt"@,
            SyntaxKind::CreateDomainStmt => "CreateDomainStmt"@,
            SyntaxKind::CreateEnumStmt => "CreateEnumStmt"@,
            SyntaxKind::CreateEventTrigStmt => "CreateEventTrigStmt"@,
            SyntaxKind::CreateExtensionStmt => "CreateExtensionStmt"@,
            SyntaxKind::CreateFdwStmt => "CreateFdwStmt"@,
            SyntaxKind::CreateForeignServerStmt => "CreateForeignServerStmt"@,
            SyntaxKind::CreateForeignTableStmt => "CreateForeignTableStmt"@,
            SyntaxKind::CreateFunctionStmt => "CreateFunctionStmt"@,
            SyntaxKind::CreateOpClassStmt => "CreateOpClassStmt"@,
            SyntaxKind::CreateOpFamilyStmt => "CreateOpFamilyStmt"@,
            SyntaxKind::CreatePolicyStmt => "CreatePolicyStmt"@,
            SyntaxKind::CreatePublicationStmt => "CreatePublicationStmt"@,
            SyntaxKind::CreateRangeStmt => "CreateRangeStmt"@,
            SyntaxKind::CreateRoleStmt => "CreateRoleStmt"@,
            SyntaxKind::CreateSchemaStmt => "CreateSchemaStmt"@,
            SyntaxKind::CreateSeqStmt => "CreateSeqStmt"@,
            _ => self.debug_name_part10(),
        }
    }

    /// [`SyntaxKind::debug_name`] for the kinds of block 10 of the enum and after.
    fn debug_name_exec_part9(self) -> (r: &'static str)
        ensures
            r@ == self.debug_name_part9(),
    {
        match self {
            SyntaxKind::Zone => "Zone",
            SyntaxKind::FormatLa => "FormatLa",
            SyntaxKind::NotLa => "NotLa",
            SyntaxKind::NullsLa => "NullsLa",
            SyntaxKind::WithLa => "WithLa",
            SyntaxKind::WithoutLa => "WithoutLa",
            SyntaxKind::ModeTypeName => "ModeTypeName",
            SyntaxKind::ModePlpgsqlExpr => "ModePlpgsqlExpr",
            SyntaxKind::ModePlpgsqlAssign1 => "ModePlpgsqlAssign1",
            SyntaxKind::ModePlpgsqlAssign2 => "ModePlpgsqlAssign2",
            SyntaxKind::ModePlpgsqlAssign3 => "ModePlpgsqlAssign3",
            SyntaxKind::Uminus => "Uminus",
            SyntaxKind::AlterCollationStmt => "AlterCollationStmt",
            SyntaxKind::AlterDatabaseRefreshCollStmt => "AlterDatabaseRefreshCollStmt",
            SyntaxKind::AlterDatabaseSetStmt => "AlterDatabaseSetStmt",
            SyntaxKind::AlterDatabaseStmt => "AlterDatabaseStmt",
            SyntaxKind::AlterDefaultPrivilegesStmt => "AlterDefaultPrivilegesStmt",
            SyntaxKind::AlterDomainStmt => "AlterDomainStmt",
            SyntaxKind::AlterEventTrigStmt => "AlterEventTrigStmt",
            SyntaxKind::AlterExtensionStmt => "AlterExtensionStmt",
            SyntaxKind::AlterFdwStmt => "AlterFdwStmt",
            SyntaxKind::AlterForeignServerStmt => "AlterForeignServerStmt",
            SyntaxKind::AlterFunctionStmt => "AlterFunctionStmt",
            SyntaxKind::AlterOpFamilyStmt => "AlterOpFamilyStmt",
            SyntaxKind::AlterOperatorStmt => "AlterOperatorStmt",
            SyntaxKind::AlterPolicyStmt => "AlterPolicyStmt",
            SyntaxKind::AlterPublicationStmt => "AlterPublicationStmt",
            SyntaxKind::AlterRoleStmt => "AlterRoleStmt",
            SyntaxKind::AlterSeqStmt => "AlterSeqStmt",
            SyntaxKind::AlterStatsStmt => "AlterStatsStmt",
            SyntaxKind::AlterSubscriptionStmt => "AlterSubscriptionStmt",
            SyntaxKind::AlterSystemStmt => "AlterSystemStmt",
            SyntaxKind::AlterTableStmt => "AlterTableStmt",
            SyntaxKind::AlterTypeStmt => "AlterTypeStmt",
            SyntaxKind::AlterUserMappingStmt => "AlterUserMappingStmt",
            SyntaxKind::CallStmt => "CallStmt",
            SyntaxKind::CheckPointStmt => "CheckPointStmt",
            SyntaxKind::ClusterStmt => "ClusterStmt",
            SyntaxKind::CommentStmt => "CommentStmt",
            SyntaxKind::ConstraintsSetStmt => "ConstraintsSetStmt",
            SyntaxKind::CopyStmt => "CopyStmt",
            SyntaxKind::CreateAmStmt => "CreateAmStmt",
            SyntaxKind::CreateCastStmt => "CreateCastStmt",
            SyntaxKind::CreateConversionStmt => "CreateConversionStmt",
            SyntaxKind::CreateDomainStmt => "CreateDomainStmt",
            SyntaxKind::CreateEnumStmt => "CreateEnumStmt",
            SyntaxKind::CreateEventTrigStmt => "CreateEventTrigStmt",
            SyntaxKind::CreateExtensionStmt => "CreateExtensionStmt",
            SyntaxKind::CreateFdwStmt => "CreateFdwStmt",
            SyntaxKind::CreateForeignServerStmt => "CreateForeignServerStmt",
            SyntaxKind::CreateForeignTableStmt => "CreateForeignTableStmt",
            SyntaxKind::CreateFunctionStmt => "CreateFunctionStmt",
            SyntaxKind::CreateOpClassStmt => "CreateOpClassStmt",
            SyntaxKind::CreateOpFamilyStmt => "CreateOpFamilyStmt",
            SyntaxKind::CreatePolicyStmt => "CreatePolicyStmt",
            SyntaxKind::CreatePublicationStmt => "CreatePublicationStmt",
            SyntaxKind::CreateRangeStmt => "CreateRangeStmt",
            SyntaxKind::CreateRoleStmt => "CreateRoleStmt",
            SyntaxKind::CreateSchemaStmt => "CreateSchemaStmt",
            SyntaxKind::CreateSeqStmt => "CreateSeqStmt",
            _ => self.debug_name_exec_part10(),
        }
    }

    /// [`SyntaxKind::debug_name_spec`] for the kinds of block 11 of the enum and after.
    pub open spec fn debug_name_part10(self) -> Seq<char> {
        match self {
            SyntaxKind::CreateStatsStmt => "CreateStatsStmt"@,
            SyntaxKind::CreateStmt => "CreateStmt"@,
            SyntaxKind::CreateSubscriptionStmt => "CreateSubscriptionStmt"@,
            SyntaxKind::CreateTableAsStmt => "CreateTableAsStmt"@,
            SyntaxKind::CreateTableSpaceStmt => "CreateTableSpaceStmt"@,
            SyntaxKind::CreateTransformStmt => "CreateTransformStmt"@,
            SyntaxKind::CreateTrigStmt => "CreateTrigStmt"@,
            SyntaxKind::CreateUserMappingStmt => "CreateUserMappingStmt"@,
            SyntaxKind::CreatedbStmt => "CreatedbStmt"@,
            SyntaxKind::DeallocateStmt => "DeallocateStmt"@,
            SyntaxKind::DefineStmt => "DefineStmt"@,
            SyntaxKind::DeleteStmt => "DeleteStmt"@,
            SyntaxKind::DiscardStmt => "DiscardStmt"@,
            SyntaxKind::DoStmt => "DoStmt"@,
            SyntaxKind::DropOwnedStmt => "DropOwnedStmt"@,
            SyntaxKind::DropRoleStmt => "DropRoleStmt"@,
            SyntaxKind::DropStmt => "DropStmt"@,
            SyntaxKind::DropSubscriptionStmt => "DropSubscriptionStmt"@,
            SyntaxKind::DropTableSpaceStmt => "DropTableSpaceStmt"@,
            SyntaxKind::DropUserMappingStmt => "DropUserMappingStmt"@,
            SyntaxKind::DropdbStmt => "DropdbStmt"@,
            SyntaxKind::ExecuteStmt => "ExecuteStmt"@,
            SyntaxKind::ExplainStmt => "ExplainStmt"@,
            SyntaxKind::FetchStmt => "FetchStmt"@,
            SyntaxKind::ImportForeignSchemaStmt => "ImportForeignSchemaStmt"@,
            SyntaxKind::IndexStmt => "IndexStmt"@,
            SyntaxKind::InsertStmt => "InsertStmt"@,
            SyntaxKind::ListenStmt => "ListenStmt"@,
            SyntaxKind::LoadStmt => "LoadStmt"@,
            SyntaxKind::LockStmt => "LockStmt"@,
            SyntaxKind::MergeStmt => "MergeStmt"@,
            SyntaxKind::NotifyStmt => "NotifyStmt"@,
            SyntaxKind::PrepareStmt => "PrepareStmt"@,
            SyntaxKind::ReassignOwnedStmt => "ReassignOwnedStmt"@,
            SyntaxKind::RefreshMatViewStmt => "RefreshMatViewStmt"@,
            SyntaxKind::ReindexStmt => "ReindexStmt"@,
            SyntaxKind::RenameStmt => "RenameStmt"@,
            SyntaxKind::RuleStmt => "RuleStmt"@,
            SyntaxKind::SecLabelStmt => "SecLabelStmt"@,
            SyntaxKind::SelectStmt => "SelectStmt"@,
            SyntaxKind::TransactionStmt => "TransactionStmt"@,
            SyntaxKind::TruncateStmt => "TruncateStmt"@,
            SyntaxKind::UnlistenStmt => "UnlistenStmt"@,
            SyntaxKind::UpdateStmt => "UpdateStmt"@,
            SyntaxKind::VacuumStmt => "VacuumStmt"@,
            SyntaxKind::VariableSetStmt => "VariableSetStmt"@,
            SyntaxKind::VariableShowStmt => "VariableShowStmt"@,
            SyntaxKind::ViewStmt => "ViewStmt"@,
            _ => ""@,
        }
    }

    /// [`SyntaxKind::debug_name`] for the kinds of block 11 of the enum and after.
    fn debug_name_exec_part10(self) -> (r: &'static str)
        ensures
            r@ == self.debug_name_part10(),
    {
        match self {
            SyntaxKind::CreateStatsStmt => "CreateStatsStmt",
            SyntaxKind::CreateStmt => "CreateStmt",
            SyntaxKind::CreateSubscriptionStmt => "CreateSubscriptionStmt",
            SyntaxKind::CreateTableAsStmt => "CreateTableAsStmt",
            SyntaxKind::CreateTableSpaceStmt => "CreateTableSpaceStmt",
            SyntaxKind::CreateTransformStmt => "CreateTransformStmt",
            SyntaxKind::CreateTrigStmt => "CreateTrigStmt",
            SyntaxKind::CreateUserMappingStmt => "CreateUserMappingStmt",
            SyntaxKind::CreatedbStmt => "CreatedbStmt",
            SyntaxKind::DeallocateStmt => "DeallocateStmt",
            SyntaxKind::DefineStmt => "DefineStmt",
            SyntaxKind::DeleteStmt => "DeleteStmt",
            SyntaxKind::DiscardStmt => "DiscardStmt",
            SyntaxKind::DoStmt => "DoStmt",
            SyntaxKind::DropOwnedStmt => "DropOwnedStmt",
            SyntaxKind::DropRoleStmt => "DropRoleStmt",
            SyntaxKind::DropStmt => "DropStmt",
            SyntaxKind::DropSubscriptionStmt => "DropSubscriptionStmt",
            SyntaxKind::DropTableSpaceStmt => "DropTableSpaceStmt",
            SyntaxKind::DropUserMappingStmt => "DropUserMappingStmt",
            SyntaxKind::DropdbStmt => "DropdbStmt",
            SyntaxKind::ExecuteStmt => "ExecuteStmt",
            SyntaxKind::ExplainStmt => "ExplainStmt",
            SyntaxKind::FetchStmt => "FetchStmt",
            SyntaxKind::ImportForeignSchemaStmt => "ImportForeignSchemaStmt",
            SyntaxKind::IndexStmt => "IndexStmt",
            SyntaxKind::InsertStmt => "InsertStmt",
            SyntaxKind::ListenStmt => "ListenStmt",
            SyntaxKind::LoadStmt => "LoadStmt",
            SyntaxKind::LockStmt => "LockStmt",
            SyntaxKind::MergeStmt => "MergeStmt",
            SyntaxKind::NotifyStmt => "NotifyStmt",
            SyntaxKind::PrepareStmt => "PrepareStmt",
            SyntaxKind::ReassignOwnedStmt => "ReassignOwnedStmt",
            SyntaxKind::RefreshMatViewStmt => "RefreshMatViewStmt",
            SyntaxKind::ReindexStmt => "ReindexStmt",
            SyntaxKind::RenameStmt => "RenameStmt",
            SyntaxKind::RuleStmt => "RuleStmt",
            SyntaxKind::SecLabelStmt => "SecLabelStmt",
            SyntaxKind::SelectStmt => "SelectStmt",
            SyntaxKind::TransactionStmt => "TransactionStmt",
            SyntaxKind::TruncateStmt => "TruncateStmt",
            SyntaxKind::UnlistenStmt => "UnlistenStmt",
            SyntaxKind::UpdateStmt => "UpdateStmt",
            SyntaxKind::VacuumStmt => "VacuumStmt",
            SyntaxKind::VariableSetStmt => "VariableSetStmt",
            SyntaxKind::VariableShowStmt => "VariableShowStmt",
            SyntaxKind::ViewStmt => "ViewStmt",
            _ => "",
        }
    }
}

} // verus!
