//! The grammar elements that the DB2 dialect adds to the ANSI ones.
//! Each element is stated as a value and built by a function proved to give
//! that value.

use crate::dialect::{DialectModel, DialectView, Element, ElementView};
use crate::grammar::{Grammar, GrammarView, ParseMode, views, word_set};
use vstd::prelude::*;

verus! {

/// The DB2 element `RightArrowSegment`.
pub open spec fn right_arrow_segment_element() -> ElementView {
    ElementView::Grammar(GrammarView::StringParser { template: "=>"@, kind: "right_arrow"@ })
}

fn build_right_arrow_segment() -> (e: Element)
    ensures
        e@ =~~= right_arrow_segment_element(),
{
    Element::Grammar(Grammar::string_parser("=>", "right_arrow"))
}

/// The DB2 element `LabeledDurationGrammar`.
pub open spec fn labeled_duration_grammar_element() -> ElementView {
    ElementView::Grammar(GrammarView::Sequence { elements: seq![GrammarView::OneOf { elements: seq![GrammarView::Ref { name: "LiteralGrammar"@, optional: false }, GrammarView::Ref { name: "BareFunctionSegment"@, optional: false }, GrammarView::Ref { name: "FunctionSegment"@, optional: false }, GrammarView::Ref { name: "ColumnReferenceSegment"@, optional: false }, GrammarView::Ref { name: "Expression_D_Grammar"@, optional: false }], terminators: seq![] }, GrammarView::OneOf { elements: seq![GrammarView::Keyword { word: "DAY"@ }, GrammarView::Keyword { word: "DAYS"@ }, GrammarView::Keyword { word: "HOUR"@ }, GrammarView::Keyword { word: "HOURS"@ }, GrammarView::Keyword { word: "MICROSECOND"@ }, GrammarView::Keyword { word: "MICROSECONDS"@ }, GrammarView::Keyword { word: "MINUTE"@ }, GrammarView::Keyword { word: "MINUTES"@ }, GrammarView::Keyword { word: "MONTH"@ }, GrammarView::Keyword { word: "MONTHS"@ }, GrammarView::Keyword { word: "SECOND"@ }, GrammarView::Keyword { word: "SECONDS"@ }, GrammarView::Keyword { word: "YEAR"@ }, GrammarView::Keyword { word: "YEARS"@ }], terminators: seq![] }], terminators: seq![], parse_mode: ParseMode::Strict })
}

fn build_labeled_duration_grammar() -> (e: Element)
    ensures
        e@ =~~= labeled_duration_grammar_element(),
{
    let g1: Vec<Grammar> = vec![Grammar::reference("LiteralGrammar"), Grammar::reference("BareFunctionSegment"), Grammar::reference("FunctionSegment"), Grammar::reference("ColumnReferenceSegment"), Grammar::reference("Expression_D_Grammar")];
    assert(views(g1@) =~~= seq![GrammarView::Ref { name: "LiteralGrammar"@, optional: false }, GrammarView::Ref { name: "BareFunctionSegment"@, optional: false }, GrammarView::Ref { name: "FunctionSegment"@, optional: false }, GrammarView::Ref { name: "ColumnReferenceSegment"@, optional: false }, GrammarView::Ref { name: "Expression_D_Grammar"@, optional: false }]);
    let g2: Vec<Grammar> = Vec::new();
    assert(views(g2@) =~= Seq::<GrammarView>::empty());
    let g3 = Grammar::one_of_with(g1, g2);
    let g4: Vec<Grammar> = vec![Grammar::keyword("DAY"), Grammar::keyword("DAYS"), Grammar::keyword("HOUR"), Grammar::keyword("HOURS"), Grammar::keyword("MICROSECOND"), Grammar::keyword("MICROSECONDS"), Grammar::keyword("MINUTE"), Grammar::keyword("MINUTES"), Grammar::keyword("MONTH"), Grammar::keyword("MONTHS"), Grammar::keyword("SECOND"), Grammar::keyword("SECONDS"), Grammar::keyword("YEAR"), Grammar::keyword("YEARS")];
    assert(views(g4@) =~~= seq![GrammarView::Keyword { word: "DAY"@ }, GrammarView::Keyword { word: "DAYS"@ }, GrammarView::Keyword { word: "HOUR"@ }, GrammarView::Keyword { word: "HOURS"@ }, GrammarView::Keyword { word: "MICROSECOND"@ }, GrammarView::Keyword { word: "MICROSECONDS"@ }, GrammarView::Keyword { word: "MINUTE"@ }, GrammarView::Keyword { word: "MINUTES"@ }, GrammarView::Keyword { word: "MONTH"@ }, GrammarView::Keyword { word: "MONTHS"@ }, GrammarView::Keyword { word: "SECOND"@ }, GrammarView::Keyword { word: "SECONDS"@ }, GrammarView::Keyword { word: "YEAR"@ }, GrammarView::Keyword { word: "YEARS"@ }]);
    let g5: Vec<Grammar> = Vec::new();
    assert(views(g5@) =~= Seq::<GrammarView>::empty());
    let g6 = Grammar::one_of_with(g4, g5);
    let g7: Vec<Grammar> = vec![g3, g6];
    assert(views(g7@) =~~= seq![GrammarView::OneOf { elements: seq![GrammarView::Ref { name: "LiteralGrammar"@, optional: false }, GrammarView::Ref { name: "BareFunctionSegment"@, optional: false }, GrammarView::Ref { name: "FunctionSegment"@, optional: false }, GrammarView::Ref { name: "ColumnReferenceSegment"@, optional: false }, GrammarView::Ref { name: "Expression_D_Grammar"@, optional: false }], terminators: seq![] }, GrammarView::OneOf { elements: seq![GrammarView::Keyword { word: "DAY"@ }, GrammarView::Keyword { word: "DAYS"@ }, GrammarView::Keyword { word: "HOUR"@ }, GrammarView::Keyword { word: "HOURS"@ }, GrammarView::Keyword { word: "MICROSECOND"@ }, GrammarView::Keyword { word: "MICROSECONDS"@ }, GrammarView::Keyword { word: "MINUTE"@ }, GrammarView::Keyword { word: "MINUTES"@ }, GrammarView::Keyword { word: "MONTH"@ }, GrammarView::Keyword { word: "MONTHS"@ }, GrammarView::Keyword { word: "SECOND"@ }, GrammarView::Keyword { word: "SECONDS"@ }, GrammarView::Keyword { word: "YEAR"@ }, GrammarView::Keyword { word: "YEARS"@ }], terminators: seq![] }]);
    let g8: Vec<Grammar> = Vec::new();
    assert(views(g8@) =~= Seq::<GrammarView>::empty());
    let g9 = Grammar::sequence_with(g7, g8, ParseMode::Strict);
    Element::Grammar(g9)
}

/// The DB2 element `SpecialRegisterGrammar`.
pub open spec fn special_register_grammar_element() -> ElementView {
    ElementView::Grammar(GrammarView::OneOf { elements: seq![GrammarView::Keyword { word: "CURRENT_DATE"@ }, GrammarView::Keyword { word: "CURRENT_PATH"@ }, GrammarView::Keyword { word: "CURRENT_SCHEMA"@ }, GrammarView::Keyword { word: "CURRENT_SERVER"@ }, GrammarView::Keyword { word: "CURRENT_TIME"@ }, GrammarView::Keyword { word: "CURRENT_TIMESTAMP"@ }, GrammarView::Keyword { word: "CURRENT_TIMEZONE"@ }, GrammarView::Keyword { word: "CURRENT_USER"@ }, GrammarView::Keyword { word: "SESSION_USER"@ }, GrammarView::Keyword { word: "SYSTEM_USER"@ }, GrammarView::Keyword { word: "USER"@ }, GrammarView::Sequence { elements: seq![GrammarView::Keyword { word: "CURRENT"@ }, GrammarView::OneOf { elements: seq![GrammarView::Keyword { word: "CLIENT_ACCTNG"@ }, GrammarView::Keyword { word: "CLIENT_APPLNAME"@ }, GrammarView::Keyword { word: "CLIENT_USERID"@ }, GrammarView::Keyword { word: "CLIENT_WRKSTNNAME"@ }, GrammarView::Keyword { word: "DATE"@ }, GrammarView::Keyword { word: "DBPARTITIONNUM"@ }, GrammarView::Sequence { elements: seq![GrammarView::Keyword { word: "DECFLOAT"@ }, GrammarView::Keyword { word: "ROUNDING"@ }, GrammarView::Keyword { word: "MODE"@ }], terminators: seq![], parse_mode: ParseMode::Strict }, GrammarView::Sequence { elements: seq![GrammarView::Keyword { word: "DEFAULT"@ }, GrammarView::Keyword { word: "TRANSFORM"@ }, GrammarView::Keyword { word: "GROUP"@ }], terminators: seq![], parse_mode: ParseMode::Strict }, GrammarView::Keyword { word: "DEGREE"@ }, GrammarView::Sequence { elements: seq![GrammarView::Keyword { word: "EXPLAIN"@ }, GrammarView::OneOf { elements: seq![GrammarView::Keyword { word: "MODE"@ }, GrammarView::Keyword { word: "SNAPSHOT"@ }], terminators: seq![] }], terminators: seq![], parse_mode: ParseMode::Strict }, GrammarView::Sequence { elements: seq![GrammarView::Keyword { word: "FEDERATED"@ }, GrammarView::Keyword { word: "ASYNCHRONY"@ }], terminators: seq![], parse_mode: ParseMode::Strict }, GrammarView::Sequence { elements: seq![GrammarView::Keyword { word: "IMPLICIT"@ }, GrammarView::Keyword { word: "XMLPARSE"@ }, GrammarView::Keyword { word: "OPTION"@ }], terminators: seq![], parse_mode: ParseMode::Strict }, GrammarView::Keyword { word: "ISOLATION"@ }, GrammarView::Sequence { elements: seq![GrammarView::Keyword { word: "LOCALE"@ }, GrammarView::OneOf { elements: seq![GrammarView::Keyword { word: "LC_MESSAGES"@ }, GrammarView::Keyword { word: "LC_TIME"@ }], terminators: seq![] }], terminators: seq![], parse_mode: ParseMode::Strict }, GrammarView::Sequence { elements: seq![GrammarView::Keyword { word: "LOCK"@ }, GrammarView::Keyword { word: "TIMEOUT"@ }], terminators: seq![], parse_mode: ParseMode::Strict }, GrammarView::Sequence { elements: seq![GrammarView::Keyword { word: "MAINTAINED"@ }, GrammarView::Keyword { word: "TABLE"@ }, GrammarView::Keyword { word: "TYPES"@ }, GrammarView::Keyword { word: "FOR"@ }, GrammarView::Keyword { word: "OPTIMIZATION"@ }], terminators: seq![], parse_mode: ParseMode::Strict }, GrammarView::Sequence { elements: seq![GrammarView::Keyword { word: "MDC"@ }, GrammarView::Keyword { word: "ROLLOUT"@ }, GrammarView::Keyword { word: "MODE"@ }], terminators: seq![], parse_mode: ParseMode::Strict }, GrammarView::Keyword { word: "MEMBER"@ }, GrammarView::Sequence { elements: seq![GrammarView::Keyword { word: "OPTIMIZATION"@ }, GrammarView::Keyword { word: "PROFILE"@ }], terminators: seq![], parse_mode: ParseMode::Strict }, GrammarView::Sequence { elements: seq![GrammarView::Keyword { word: "PACKAGE"@ }, GrammarView::Keyword { word: "PATH"@ }], terminators: seq![], parse_mode: ParseMode::Strict }, GrammarView::Keyword { word: "PATH"@ }, GrammarView::Sequence { elements: seq![GrammarView::Keyword { word: "QUERY"@ }, GrammarView::Keyword { word: "OPTIMIZATION"@ }], terminators: seq![], parse_mode: ParseMode::Strict }, GrammarView::Sequence { elements: seq![GrammarView::Keyword { word: "REFRESH"@ }, GrammarView::Keyword { word: "AGE"@ }], terminators: seq![], parse_mode: ParseMode::Strict }, GrammarView::Keyword { word: "SCHEMA"@ }, GrammarView::Keyword { word: "SERVER"@ }, GrammarView::Keyword { word: "SQL_CCFLAGS"@ }, GrammarView::Sequence { elements: seq![GrammarView::Keyword { word: "TEMPORAL"@ }, GrammarView::OneOf { elements: seq![GrammarView::Keyword { word: "BUSINESS_TIME"@ }, GrammarView::Keyword { word: "SYSTEM_TIME"@ }], terminators: seq![] }], terminators: seq![], parse_mode: ParseMode::Strict }, GrammarView::Keyword { word: "TIME"@ }, GrammarView::Keyword { word: "TIMESTAMP"@ }, GrammarView::Keyword { word: "TIMEZONE"@ }, GrammarView::Keyword { word: "USER"@ }], terminators: seq![] }], terminators: seq![], parse_mode: ParseMode::Strict }], terminators: seq![] })
}

fn build_special_register_grammar() -> (e: Element)
    ensures
        e@ =~~= special_register_grammar_element(),
{
    let g1: Vec<Grammar> = vec![Grammar::keyword("DECFLOAT"), Grammar::keyword("ROUNDING"), Grammar::keyword("MODE")];
    assert(views(g1@) =~~= seq![GrammarView::Keyword { word: "DECFLOAT"@ }, GrammarView::Keyword { word: "ROUNDING"@ }, GrammarView::Keyword { word: "MODE"@ }]);
    let g2: Vec<Grammar> = Vec::new();
    assert(views(g2@) =~= Seq::<GrammarView>::empty());
    let g3 = Grammar::sequence_with(g1, g2, ParseMode::Strict);
    let g4: Vec<Grammar> = vec![Grammar::keyword("DEFAULT"), Grammar::keyword("TRANSFORM"), Grammar::keyword("GROUP")];
    assert(views(g4@) =~~= seq![GrammarView::Keyword { word: "DEFAULT"@ }, GrammarView::Keyword { word: "TRANSFORM"@ }, GrammarView::Keyword { word: "GROUP"@ }]);
    let g5: Vec<Grammar> = Vec::new();
    assert(views(g5@) =~= Seq::<GrammarView>::empty());
    let g6 = Grammar::sequence_with(g4, g5, ParseMode::Strict);
    let g7: Vec<Grammar> = vec![Grammar::keyword("MODE"), Grammar::keyword("SNAPSHOT")];
    assert(views(g7@) =~~= seq![GrammarView::Keyword { word: "MODE"@ }, GrammarView::Keyword { word: "SNAPSHOT"@ }]);
    let g8: Vec<Grammar> = Vec::new();
    assert(views(g8@) =~= Seq::<GrammarView>::empty());
    let g9 = Grammar::one_of_with(g7, g8);
    let g10: Vec<Grammar> = vec![Grammar::keyword("EXPLAIN"), g9];
    assert(views(g10@) =~~= seq![GrammarView::Keyword { word: "EXPLAIN"@ }, GrammarView::OneOf { elements: seq![GrammarView::Keyword { word: "MODE"@ }, GrammarView::Keyword { word: "SNAPSHOT"@ }], terminators: seq![] }]);
    let g11: Vec<Grammar> = Vec::new();
    assert(views(g11@) =~= Seq::<GrammarView>::empty());
    let g12 = Grammar::sequence_with(g10, g11, ParseMode::Strict);
    let g13: Vec<Grammar> = vec![Grammar::keyword("FEDERATED"), Grammar::keyword("ASYNCHRONY")];
    assert(views(g13@) =~~= seq![GrammarView::Keyword { word: "FEDERATED"@ }, GrammarView::Keyword { word: "ASYNCHRONY"@ }]);
    let g14: Vec<Grammar> = Vec::new();
    assert(views(g14@) =~= Seq::<GrammarView>::empty());
    let g15 = Grammar::sequence_with(g13, g14, ParseMode::Strict);
    let g16: Vec<Grammar> = vec![Grammar::keyword("IMPLICIT"), Grammar::keyword("XMLPARSE"), Grammar::keyword("OPTION")];
    assert(views(g16@) =~~= seq![GrammarView::Keyword { word: "IMPLICIT"@ }, GrammarView::Keyword { word: "XMLPARSE"@ }, GrammarView::Keyword { word: "OPTION"@ }]);
    let g17: Vec<Grammar> = Vec::new();
    assert(views(g17@) =~= Seq::<GrammarView>::empty());
    let g18 = Grammar::sequence_with(g16, g17, ParseMode::Strict);
    let g19: Vec<Grammar> = vec![Grammar::keyword("LC_MESSAGES"), Grammar::keyword("LC_TIME")];
    assert(views(g19@) =~~= seq![GrammarView::Keyword { word: "LC_MESSAGES"@ }, GrammarView::Keyword { word: "LC_TIME"@ }]);
    let g20: Vec<Grammar> = Vec::new();
    assert(views(g20@) =~= Seq::<GrammarView>::empty());
    let g21 = Grammar::one_of_with(g19, g20);
    let g22: Vec<Grammar> = vec![Grammar::keyword("LOCALE"), g21];
    assert(views(g22@) =~~= seq![GrammarView::Keyword { word: "LOCALE"@ }, GrammarView::OneOf { elements: seq![GrammarView::Keyword { word: "LC_MESSAGES"@ }, GrammarView::Keyword { word: "LC_TIME"@ }], terminators: seq![] }]);
    let g23: Vec<Grammar> = Vec::new();
    assert(views(g23@) =~= Seq::<GrammarView>::empty());
    let g24 = Grammar::sequence_with(g22, g23, ParseMode::Strict);
    let g25: Vec<Grammar> = vec![Grammar::keyword("LOCK"), Grammar::keyword("TIMEOUT")];
    assert(views(g25@) =~~= seq![GrammarView::Keyword { word: "LOCK"@ }, GrammarView::Keyword { word: "TIMEOUT"@ }]);
    let g26: Vec<Grammar> = Vec::new();
    assert(views(g26@) =~= Seq::<GrammarView>::empty());
    let g27 = Grammar::sequence_with(g25, g26, ParseMode::Strict);
    let g28: Vec<Grammar> = vec![Grammar::keyword("MAINTAINED"), Grammar::keyword("TABLE"), Grammar::keyword("TYPES"), Grammar::keyword("FOR"), Grammar::keyword("OPTIMIZATION")];
    assert(views(g28@) =~~= seq![GrammarView::Keyword { word: "MAINTAINED"@ }, GrammarView::Keyword { word: "TABLE"@ }, GrammarView::Keyword { word: "TYPES"@ }, GrammarView::Keyword { word: "FOR"@ }, GrammarView::Keyword { word: "OPTIMIZATION"@ }]);
    let g29: Vec<Grammar> = Vec::new();
    assert(views(g29@) =~= Seq::<GrammarView>::empty());
    let g30 = Grammar::sequence_with(g28, g29, ParseMode::Strict);
    let g31: Vec<Grammar> = vec![Grammar::keyword("MDC"), Grammar::keyword("ROLLOUT"), Grammar::keyword("MODE")];
    assert(views(g31@) =~~= seq![GrammarView::Keyword { word: "MDC"@ }, GrammarView::Keyword { word: "ROLLOUT"@ }, GrammarView::Keyword { word: "MODE"@ }]);
    let g32: Vec<Grammar> = Vec::new();
    assert(views(g32@) =~= Seq::<GrammarView>::empty());
    let g33 = Grammar::sequence_with(g31, g32, ParseMode::Strict);
    let g34: Vec<Grammar> = vec![Grammar::keyword("OPTIMIZATION"), Grammar::keyword("PROFILE")];
    assert(views(g34@) =~~= seq![GrammarView::Keyword { word: "OPTIMIZATION"@ }, GrammarView::Keyword { word: "PROFILE"@ }]);
    let g35: Vec<Grammar> = Vec::new();
    assert(views(g35@) =~= Seq::<GrammarView>::empty());
    let g36 = Grammar::sequence_with(g34, g35, ParseMode::Strict);
    let g37: Vec<Grammar> = vec![Grammar::keyword("PACKAGE"), Grammar::keyword("PATH")];
    assert(views(g37@) =~~= seq![GrammarView::Keyword { word: "PACKAGE"@ }, GrammarView::Keyword { word: "PATH"@ }]);
    let g38: Vec<Grammar> = Vec::new();
    assert(views(g38@) =~= Seq::<GrammarView>::empty());
    let g39 = Grammar::sequence_with(g37, g38, ParseMode::Strict);
    let g40: Vec<Grammar> = vec![Grammar::keyword("QUERY"), Grammar::keyword("OPTIMIZATION")];
    assert(views(g40@) =~~= seq![GrammarView::Keyword { word: "QUERY"@ }, GrammarView::Keyword { word: "OPTIMIZATION"@ }]);
    let g41: Vec<Grammar> = Vec::new();
    assert(views(g41@) =~= Seq::<GrammarView>::empty());
    let g42 = Grammar::sequence_with(g40, g41, ParseMode::Strict);
    let g43: Vec<Grammar> = vec![Grammar::keyword("REFRESH"), Grammar::keyword("AGE")];
    assert(views(g43@) =~~= seq![GrammarView::Keyword { word: "REFRESH"@ }, GrammarView::Keyword { word: "AGE"@ }]);
    let g44: Vec<Grammar> = Vec::new();
    assert(views(g44@) =~= Seq::<GrammarView>::empty());
    let g45 = Grammar::sequence_with(g43, g44, ParseMode::Strict);
    let g46: Vec<Grammar> = vec![Grammar::keyword("BUSINESS_TIME"), Grammar::keyword("SYSTEM_TIME")];
    assert(views(g46@) =~~= seq![GrammarView::Keyword { word: "BUSINESS_TIME"@ }, GrammarView::Keyword { word: "SYSTEM_TIME"@ }]);
    let g47: Vec<Grammar> = Vec::new();
    assert(views(g47@) =~= Seq::<GrammarView>::empty());
    let g48 = Grammar::one_of_with(g46, g47);
    let g49: Vec<Grammar> = vec![Grammar::keyword("TEMPORAL"), g48];
    assert(views(g49@) =~~= seq![GrammarView::Keyword { word: "TEMPORAL"@ }, GrammarView::OneOf { elements: seq![GrammarView::Keyword { word: "BUSINESS_TIME"@ }, GrammarView::Keyword { word: "SYSTEM_TIME"@ }], terminators: seq![] }]);
    let g50: Vec<Grammar> = Vec::new();
    assert(views(g50@) =~= Seq::<GrammarView>::empty());
    let g51 = Grammar::sequence_with(g49, g50, ParseMode::Strict);
    let g52: Vec<Grammar> = vec![Grammar::keyword("CLIENT_ACCTNG"), Grammar::keyword("CLIENT_APPLNAME"), Grammar::keyword("CLIENT_USERID"), Grammar::keyword("CLIENT_WRKSTNNAME"), Grammar::keyword("DATE"), Grammar::keyword("DBPARTITIONNUM"), g3, g6, Grammar::keyword("DEGREE"), g12, g15, g18, Grammar::keyword("ISOLATION"), g24, g27, g30, g33, Grammar::keyword("MEMBER"), g36, g39, Grammar::keyword("PATH"), g42, g45, Grammar::keyword("SCHEMA"), Grammar::keyword("SERVER"), Grammar::keyword("SQL_CCFLAGS"), g51, Grammar::keyword("TIME"), Grammar::keyword("TIMESTAMP"), Grammar::keyword("TIMEZONE"), Grammar::keyword("USER")];
    assert(views(g52@) =~~= seq![GrammarView::Keyword { word: "CLIENT_ACCTNG"@ }, GrammarView::Keyword { word: "CLIENT_APPLNAME"@ }, GrammarView::Keyword { word: "CLIENT_USERID"@ }, GrammarView::Keyword { word: "CLIENT_WRKSTNNAME"@ }, GrammarView::Keyword { word: "DATE"@ }, GrammarView::Keyword { word: "DBPARTITIONNUM"@ }, GrammarView::Sequence { elements: seq![GrammarView::Keyword { word: "DECFLOAT"@ }, GrammarView::Keyword { word: "ROUNDING"@ }, GrammarView::Keyword { word: "MODE"@ }], terminators: seq![], parse_mode: ParseMode::Strict }, GrammarView::Sequence { elements: seq![GrammarView::Keyword { word: "DEFAULT"@ }, GrammarView::Keyword { word: "TRANSFORM"@ }, GrammarView::Keyword { word: "GROUP"@ }], terminators: seq![], parse_mode: ParseMode::Strict }, GrammarView::Keyword { word: "DEGREE"@ }, GrammarView::Sequence { elements: seq![GrammarView::Keyword { word: "EXPLAIN"@ }, GrammarView::OneOf { elements: seq![GrammarView::Keyword { word: "MODE"@ }, GrammarView::Keyword { word: "SNAPSHOT"@ }], terminators: seq![] }], terminators: seq![], parse_mode: ParseMode::Strict }, GrammarView::Sequence { elements: seq![GrammarView::Keyword { word: "FEDERATED"@ }, GrammarView::Keyword { word: "ASYNCHRONY"@ }], terminators: seq![], parse_mode: ParseMode::Strict }, GrammarView::Sequence { elements: seq![GrammarView::Keyword { word: "IMPLICIT"@ }, GrammarView::Keyword { word: "XMLPARSE"@ }, GrammarView::Keyword { word: "OPTION"@ }], terminators: seq![], parse_mode: ParseMode::Strict }, GrammarView::Keyword { word: "ISOLATION"@ }, GrammarView::Sequence { elements: seq![GrammarView::Keyword { word: "LOCALE"@ }, GrammarView::OneOf { elements: seq![GrammarView::Keyword { word: "LC_MESSAGES"@ }, GrammarView::Keyword { word: "LC_TIME"@ }], terminators: seq![] }], terminators: seq![], parse_mode: ParseMode::Strict }, GrammarView::Sequence { elements: seq![GrammarView::Keyword { word: "LOCK"@ }, GrammarView::Keyword { word: "TIMEOUT"@ }], terminators: seq![], parse_mode: ParseMode::Strict }, GrammarView::Sequence { elements: seq![GrammarView::Keyword { word: "MAINTAINED"@ }, GrammarView::Keyword { word: "TABLE"@ }, GrammarView::Keyword { word: "TYPES"@ }, GrammarView::Keyword { word: "FOR"@ }, GrammarView::Keyword { word: "OPTIMIZATION"@ }], terminators: seq![], parse_mode: ParseMode::Strict }, GrammarView::Sequence { elements: seq![GrammarView::Keyword { word: "MDC"@ }, GrammarView::Keyword { word: "ROLLOUT"@ }, GrammarView::Keyword { word: "MODE"@ }], terminators: seq![], parse_mode: ParseMode::Strict }, GrammarView::Keyword { word: "MEMBER"@ }, GrammarView::Sequence { elements: seq![GrammarView::Keyword { word: "OPTIMIZATION"@ }, GrammarView::Keyword { word: "PROFILE"@ }], terminators: seq![], parse_mode: ParseMode::Strict }, GrammarView::Sequence { elements: seq![GrammarView::Keyword { word: "PACKAGE"@ }, GrammarView::Keyword { word: "PATH"@ }], terminators: seq![], parse_mode: ParseMode::Strict }, GrammarView::Keyword { word: "PATH"@ }, GrammarView::Sequence { elements: seq![GrammarView::Keyword { word: "QUERY"@ }, GrammarView::Keyword { word: "OPTIMIZATION"@ }], terminators: seq![], parse_mode: ParseMode::Strict }, GrammarView::Sequence { elements: seq![GrammarView::Keyword { word: "REFRESH"@ }, GrammarView::Keyword { word: "AGE"@ }], terminators: seq![], parse_mode: ParseMode::Strict }, GrammarView::Keyword { word: "SCHEMA"@ }, GrammarView::Keyword { word: "SERVER"@ }, GrammarView::Keyword { word: "SQL_CCFLAGS"@ }, GrammarView::Sequence { elements: seq![GrammarView::Keyword { word: "TEMPORAL"@ }, GrammarView::OneOf { elements: seq![GrammarView::Keyword { word: "BUSINESS_TIME"@ }, GrammarView::Keyword { word: "SYSTEM_TIME"@ }], terminators: seq![] }], terminators: seq![], parse_mode: ParseMode::Strict }, GrammarView::Keyword { word: "TIME"@ }, GrammarView::Keyword { word: "TIMESTAMP"@ }, GrammarView::Keyword { word: "TIMEZONE"@ }, GrammarView::Keyword { word: "USER"@ }]);
    let g53: Vec<Grammar> = Vec::new();
    assert(views(g53@) =~= Seq::<GrammarView>::empty());
    let g54 = Grammar::one_of_with(g52, g53);
    let g55: Vec<Grammar> = vec![Grammar::keyword("CURRENT"), g54];
    assert(views(g55@) =~~= seq![GrammarView::Keyword { word: "CURRENT"@ }, GrammarView::OneOf { elements: seq![GrammarView::Keyword { word: "CLIENT_ACCTNG"@ }, GrammarView::Keyword { word: "CLIENT_APPLNAME"@ }, GrammarView::Keyword { word: "CLIENT_USERID"@ }, GrammarView::Keyword { word: "CLIENT_WRKSTNNAME"@ }, GrammarView::Keyword { word: "DATE"@ }, GrammarView::Keyword { word: "DBPARTITIONNUM"@ }, GrammarView::Sequence { elements: seq![GrammarView::Keyword { word: "DECFLOAT"@ }, GrammarView::Keyword { word: "ROUNDING"@ }, GrammarView::Keyword { word: "MODE"@ }], terminators: seq![], parse_mode: ParseMode::Strict }, GrammarView::Sequence { elements: seq![GrammarView::Keyword { word: "DEFAULT"@ }, GrammarView::Keyword { word: "TRANSFORM"@ }, GrammarView::Keyword { word: "GROUP"@ }], terminators: seq![], parse_mode: ParseMode::Strict }, GrammarView::Keyword { word: "DEGREE"@ }, GrammarView::Sequence { elements: seq![GrammarView::Keyword { word: "EXPLAIN"@ }, GrammarView::OneOf { elements: seq![GrammarView::Keyword { word: "MODE"@ }, GrammarView::Keyword { word: "SNAPSHOT"@ }], terminators: seq![] }], terminators: seq![], parse_mode: ParseMode::Strict }, GrammarView::Sequence { elements: seq![GrammarView::Keyword { word: "FEDERATED"@ }, GrammarView::Keyword { word: "ASYNCHRONY"@ }], terminators: seq![], parse_mode: ParseMode::Strict }, GrammarView::Sequence { elements: seq![GrammarView::Keyword { word: "IMPLICIT"@ }, GrammarView::Keyword { word: "XMLPARSE"@ }, GrammarView::Keyword { word: "OPTION"@ }], terminators: seq![], parse_mode: ParseMode::Strict }, GrammarView::Keyword { word: "ISOLATION"@ }, GrammarView::Sequence { elements: seq![GrammarView::Keyword { word: "LOCALE"@ }, GrammarView::OneOf { elements: seq![GrammarView::Keyword { word: "LC_MESSAGES"@ }, GrammarView::Keyword { word: "LC_TIME"@ }], terminators: seq![] }], terminators: seq![], parse_mode: ParseMode::Strict }, GrammarView::Sequence { elements: seq![GrammarView::Keyword { word: "LOCK"@ }, GrammarView::Keyword { word: "TIMEOUT"@ }], terminators: seq![], parse_mode: ParseMode::Strict }, GrammarView::Sequence { elements: seq![GrammarView::Keyword { word: "MAINTAINED"@ }, GrammarView::Keyword { word: "TABLE"@ }, GrammarView::Keyword { word: "TYPES"@ }, GrammarView::Keyword { word: "FOR"@ }, GrammarView::Keyword { word: "OPTIMIZATION"@ }], terminators: seq![], parse_mode: ParseMode::Strict }, GrammarView::Sequence { elements: seq![GrammarView::Keyword { word: "MDC"@ }, GrammarView::Keyword { word: "ROLLOUT"@ }, GrammarView::Keyword { word: "MODE"@ }], terminators: seq![], parse_mode: ParseMode::Strict }, GrammarView::Keyword { word: "MEMBER"@ }, GrammarView::Sequence { elements: seq![GrammarView::Keyword { word: "OPTIMIZATION"@ }, GrammarView::Keyword { word: "PROFILE"@ }], terminators: seq![], parse_mode: ParseMode::Strict }, GrammarView::Sequence { elements: seq![GrammarView::Keyword { word: "PACKAGE"@ }, GrammarView::Keyword { word: "PATH"@ }], terminators: seq![], parse_mode: ParseMode::Strict }, GrammarView::Keyword { word: "PATH"@ }, GrammarView::Sequence { elements: seq![GrammarView::Keyword { word: "QUERY"@ }, GrammarView::Keyword { word: "OPTIMIZATION"@ }], terminators: seq![], parse_mode: ParseMode::Strict }, GrammarView::Sequence { elements: seq![GrammarView::Keyword { word: "REFRESH"@ }, GrammarView::Keyword { word: "AGE"@ }], terminators: seq![], parse_mode: ParseMode::Strict }, GrammarView::Keyword { word: "SCHEMA"@ }, GrammarView::Keyword { word: "SERVER"@ }, GrammarView::Keyword { word: "SQL_CCFLAGS"@ }, GrammarView::Sequence { elements: seq![GrammarView::Keyword { word: "TEMPORAL"@ }, GrammarView::OneOf { elements: seq![GrammarView::Keyword { word: "BUSINESS_TIME"@ }, GrammarView::Keyword { word: "SYSTEM_TIME"@ }], terminators: seq![] }], terminators: seq![], parse_mode: ParseMode::Strict }, GrammarView::Keyword { word: "TIME"@ }, GrammarView::Keyword { word: "TIMESTAMP"@ }, GrammarView::Keyword { word: "TIMEZONE"@ }, GrammarView::Keyword { word: "USER"@ }], terminators: seq![] }]);
    let g56: Vec<Grammar> = Vec::new();
    assert(views(g56@) =~= Seq::<GrammarView>::empty());
    let g57 = Grammar::sequence_with(g55, g56, ParseMode::Strict);
    let g58: Vec<Grammar> = vec![Grammar::keyword("CURRENT_DATE"), Grammar::keyword("CURRENT_PATH"), Grammar::keyword("CURRENT_SCHEMA"), Grammar::keyword("CURRENT_SERVER"), Grammar::keyword("CURRENT_TIME"), Grammar::keyword("CURRENT_TIMESTAMP"), Grammar::keyword("CURRENT_TIMEZONE"), Grammar::keyword("CURRENT_USER"), Grammar::keyword("SESSION_USER"), Grammar::keyword("SYSTEM_USER"), Grammar::keyword("USER"), g57];
    assert(views(g58@) =~~= seq![GrammarView::Keyword { word: "CURRENT_DATE"@ }, GrammarView::Keyword { word: "CURRENT_PATH"@ }, GrammarView::Keyword { word: "CURRENT_SCHEMA"@ }, GrammarView::Keyword { word: "CURRENT_SERVER"@ }, GrammarView::Keyword { word: "CURRENT_TIME"@ }, GrammarView::Keyword { word: "CURRENT_TIMESTAMP"@ }, GrammarView::Keyword { word: "CURRENT_TIMEZONE"@ }, GrammarView::Keyword { word: "CURRENT_USER"@ }, GrammarView::Keyword { word: "SESSION_USER"@ }, GrammarView::Keyword { word: "SYSTEM_USER"@ }, GrammarView::Keyword { word: "USER"@ }, GrammarView::Sequence { elements: seq![GrammarView::Keyword { word: "CURRENT"@ }, GrammarView::OneOf { elements: seq![GrammarView::Keyword { word: "CLIENT_ACCTNG"@ }, GrammarView::Keyword { word: "CLIENT_APPLNAME"@ }, GrammarView::Keyword { word: "CLIENT_USERID"@ }, GrammarView::Keyword { word: "CLIENT_WRKSTNNAME"@ }, GrammarView::Keyword { word: "DATE"@ }, GrammarView::Keyword { word: "DBPARTITIONNUM"@ }, GrammarView::Sequence { elements: seq![GrammarView::Keyword { word: "DECFLOAT"@ }, GrammarView::Keyword { word: "ROUNDING"@ }, GrammarView::Keyword { word: "MODE"@ }], terminators: seq![], parse_mode: ParseMode::Strict }, GrammarView::Sequence { elements: seq![GrammarView::Keyword { word: "DEFAULT"@ }, GrammarView::Keyword { word: "TRANSFORM"@ }, GrammarView::Keyword { word: "GROUP"@ }], terminators: seq![], parse_mode: ParseMode::Strict }, GrammarView::Keyword { word: "DEGREE"@ }, GrammarView::Sequence { elements: seq![GrammarView::Keyword { word: "EXPLAIN"@ }, GrammarView::OneOf { elements: seq![GrammarView::Keyword { word: "MODE"@ }, GrammarView::Keyword { word: "SNAPSHOT"@ }], terminators: seq![] }], terminators: seq![], parse_mode: ParseMode::Strict }, GrammarView::Sequence { elements: seq![GrammarView::Keyword { word: "FEDERATED"@ }, GrammarView::Keyword { word: "ASYNCHRONY"@ }], terminators: seq![], parse_mode: ParseMode::Strict }, GrammarView::Sequence { elements: seq![GrammarView::Keyword { word: "IMPLICIT"@ }, GrammarView::Keyword { word: "XMLPARSE"@ }, GrammarView::Keyword { word: "OPTION"@ }], terminators: seq![], parse_mode: ParseMode::Strict }, GrammarView::Keyword { word: "ISOLATION"@ }, GrammarView::Sequence { elements: seq![GrammarView::Keyword { word: "LOCALE"@ }, GrammarView::OneOf { elements: seq![GrammarView::Keyword { word: "LC_MESSAGES"@ }, GrammarView::Keyword { word: "LC_TIME"@ }], terminators: seq![] }], terminators: seq![], parse_mode: ParseMode::Strict }, GrammarView::Sequence { elements: seq![GrammarView::Keyword { word: "LOCK"@ }, GrammarView::Keyword { word: "TIMEOUT"@ }], terminators: seq![], parse_mode: ParseMode::Strict }, GrammarView::Sequence { elements: seq![GrammarView::Keyword { word: "MAINTAINED"@ }, GrammarView::Keyword { word: "TABLE"@ }, GrammarView::Keyword { word: "TYPES"@ }, GrammarView::Keyword { word: "FOR"@ }, GrammarView::Keyword { word: "OPTIMIZATION"@ }], terminators: seq![], parse_mode: ParseMode::Strict }, GrammarView::Sequence { elements: seq![GrammarView::Keyword { word: "MDC"@ }, GrammarView::Keyword { word: "ROLLOUT"@ }, GrammarView::Keyword { word: "MODE"@ }], terminators: seq![], parse_mode: ParseMode::Strict }, GrammarView::Keyword { word: "MEMBER"@ }, GrammarView::Sequence { elements: seq![GrammarView::Keyword { word: "OPTIMIZATION"@ }, GrammarView::Keyword { word: "PROFILE"@ }], terminators: seq![], parse_mode: ParseMode::Strict }, GrammarView::Sequence { elements: seq![GrammarView::Keyword { word: "PACKAGE"@ }, GrammarView::Keyword { word: "PATH"@ }], terminators: seq![], parse_mode: ParseMode::Strict }, GrammarView::Keyword { word: "PATH"@ }, GrammarView::Sequence { elements: seq![GrammarView::Keyword { word: "QUERY"@ }, GrammarView::Keyword { word: "OPTIMIZATION"@ }], terminators: seq![], parse_mode: ParseMode::Strict }, GrammarView::Sequence { elements: seq![GrammarView::Keyword { word: "REFRESH"@ }, GrammarView::Keyword { word: "AGE"@ }], terminators: seq![], parse_mode: ParseMode::Strict }, GrammarView::Keyword { word: "SCHEMA"@ }, GrammarView::Keyword { word: "SERVER"@ }, GrammarView::Keyword { word: "SQL_CCFLAGS"@ }, GrammarView::Sequence { elements: seq![GrammarView::Keyword { word: "TEMPORAL"@ }, GrammarView::OneOf { elements: seq![GrammarView::Keyword { word: "BUSINESS_TIME"@ }, GrammarView::Keyword { word: "SYSTEM_TIME"@ }], terminators: seq![] }], terminators: seq![], parse_mode: ParseMode::Strict }, GrammarView::Keyword { word: "TIME"@ }, GrammarView::Keyword { word: "TIMESTAMP"@ }, GrammarView::Keyword { word: "TIMEZONE"@ }, GrammarView::Keyword { word: "USER"@ }], terminators: seq![] }], terminators: seq![], parse_mode: ParseMode::Strict }]);
    let g59: Vec<Grammar> = Vec::new();
    assert(views(g59@) =~= Seq::<GrammarView>::empty());
    let g60 = Grammar::one_of_with(g58, g59);
    Element::Grammar(g60)
}

/// The DB2 element `BareFunctionSegment`.
pub open spec fn bare_function_segment_element() -> ElementView {
    ElementView::WordsOf { set: "bare_functions"@, kind: "bare_function"@ }
}

fn build_bare_function_segment() -> (e: Element)
    ensures
        e@ =~~= bare_function_segment_element(),
{
    Element::WordsOf { set: "bare_functions", kind: "bare_function" }
}

/// The DB2 element `CopyOptionsSegment`.
pub open spec fn copy_options_segment_element() -> ElementView {
    ElementView::Node { kind: "copy_options"@, grammar: GrammarView::AnySetOf { elements: seq![GrammarView::Sequence { elements: seq![GrammarView::OneOf { elements: seq![GrammarView::Keyword { word: "INCLUDING"@ }, GrammarView::Keyword { word: "EXCLUDING"@ }], terminators: seq![] }, GrammarView::Optional { grammar: Box::new(GrammarView::Keyword { word: "COLUMN"@ }) }, GrammarView::Keyword { word: "DEFAULTS"@ }], terminators: seq![], parse_mode: ParseMode::Strict }, GrammarView::Sequence { elements: seq![GrammarView::OneOf { elements: seq![GrammarView::Keyword { word: "INCLUDING"@ }, GrammarView::Keyword { word: "EXCLUDING"@ }], terminators: seq![] }, GrammarView::Keyword { word: "IDENTITY"@ }, GrammarView::Optional { grammar: Box::new(GrammarView::Sequence { elements: seq![GrammarView::Keyword { word: "COLUMN"@ }, GrammarView::Keyword { word: "ATTRIBUTES"@ }], terminators: seq![], parse_mode: ParseMode::Strict }) }], terminators: seq![], parse_mode: ParseMode::Strict }] } }
}

fn build_copy_options_segment() -> (e: Element)
    ensures
        e@ =~~= copy_options_segment_element(),
{
    let g1: Vec<Grammar> = vec![Grammar::keyword("INCLUDING"), Grammar::keyword("EXCLUDING")];
    assert(views(g1@) =~~= seq![GrammarView::Keyword { word: "INCLUDING"@ }, GrammarView::Keyword { word: "EXCLUDING"@ }]);
    let g2: Vec<Grammar> = Vec::new();
    assert(views(g2@) =~= Seq::<GrammarView>::empty());
    let g3 = Grammar::one_of_with(g1, g2);
    let g4 = Grammar::keyword("COLUMN").optional();
    let g5: Vec<Grammar> = vec![g3, g4, Grammar::keyword("DEFAULTS")];
    assert(views(g5@) =~~= seq![GrammarView::OneOf { elements: seq![GrammarView::Keyword { word: "INCLUDING"@ }, GrammarView::Keyword { word: "EXCLUDING"@ }], terminators: seq![] }, GrammarView::Optional { grammar: Box::new(GrammarView::Keyword { word: "COLUMN"@ }) }, GrammarView::Keyword { word: "DEFAULTS"@ }]);
    let g6: Vec<Grammar> = Vec::new();
    assert(views(g6@) =~= Seq::<GrammarView>::empty());
    let g7 = Grammar::sequence_with(g5, g6, ParseMode::Strict);
    let g8: Vec<Grammar> = vec![Grammar::keyword("INCLUDING"), Grammar::keyword("EXCLUDING")];
    assert(views(g8@) =~~= seq![GrammarView::Keyword { word: "INCLUDING"@ }, GrammarView::Keyword { word: "EXCLUDING"@ }]);
    let g9: Vec<Grammar> = Vec::new();
    assert(views(g9@) =~= Seq::<GrammarView>::empty());
    let g10 = Grammar::one_of_with(g8, g9);
    let g11: Vec<Grammar> = vec![Grammar::keyword("COLUMN"), Grammar::keyword("ATTRIBUTES")];
    assert(views(g11@) =~~= seq![GrammarView::Keyword { word: "COLUMN"@ }, GrammarView::Keyword { word: "ATTRIBUTES"@ }]);
    let g12: Vec<Grammar> = Vec::new();
    assert(views(g12@) =~= Seq::<GrammarView>::empty());
    let g13 = Grammar::sequence_with(g11, g12, ParseMode::Strict);
    let g14 = g13.optional();
    let g15: Vec<Grammar> = vec![g10, Grammar::keyword("IDENTITY"), g14];
    assert(views(g15@) =~~= seq![GrammarView::OneOf { elements: seq![GrammarView::Keyword { word: "INCLUDING"@ }, GrammarView::Keyword { word: "EXCLUDING"@ }], terminators: seq![] }, GrammarView::Keyword { word: "IDENTITY"@ }, GrammarView::Optional { grammar: Box::new(GrammarView::Sequence { elements: seq![GrammarView::Keyword { word: "COLUMN"@ }, GrammarView::Keyword { word: "ATTRIBUTES"@ }], terminators: seq![], parse_mode: ParseMode::Strict }) }]);
    let g16: Vec<Grammar> = Vec::new();
    assert(views(g16@) =~= Seq::<GrammarView>::empty());
    let g17 = Grammar::sequence_with(g15, g16, ParseMode::Strict);
    let g18: Vec<Grammar> = vec![g7, g17];
    assert(views(g18@) =~~= seq![GrammarView::Sequence { elements: seq![GrammarView::OneOf { elements: seq![GrammarView::Keyword { word: "INCLUDING"@ }, GrammarView::Keyword { word: "EXCLUDING"@ }], terminators: seq![] }, GrammarView::Optional { grammar: Box::new(GrammarView::Keyword { word: "COLUMN"@ }) }, GrammarView::Keyword { word: "DEFAULTS"@ }], terminators: seq![], parse_mode: ParseMode::Strict }, GrammarView::Sequence { elements: seq![GrammarView::OneOf { elements: seq![GrammarView::Keyword { word: "INCLUDING"@ }, GrammarView::Keyword { word: "EXCLUDING"@ }], terminators: seq![] }, GrammarView::Keyword { word: "IDENTITY"@ }, GrammarView::Optional { grammar: Box::new(GrammarView::Sequence { elements: seq![GrammarView::Keyword { word: "COLUMN"@ }, GrammarView::Keyword { word: "ATTRIBUTES"@ }], terminators: seq![], parse_mode: ParseMode::Strict }) }], terminators: seq![], parse_mode: ParseMode::Strict }]);
    let g19 = Grammar::any_set_of(g18);
    Element::Node { kind: "copy_options", grammar: g19 }
}

/// The DB2 element `DeclareGlobalTempTableSegment`.
pub open spec fn declare_global_temp_table_segment_element() -> ElementView {
    ElementView::Node { kind: "declare_segment"@, grammar: GrammarView::Sequence { elements: seq![GrammarView::Keyword { word: "DECLARE"@ }, GrammarView::Keyword { word: "GLOBAL"@ }, GrammarView::Keyword { word: "TEMPORARY"@ }, GrammarView::Keyword { word: "TABLE"@ }, GrammarView::Ref { name: "TableReferenceSegment"@, optional: false }, GrammarView::OneOf { elements: seq![GrammarView::Bracketed { elements: seq![GrammarView::Delimited { elements: seq![GrammarView::Ref { name: "ColumnDefinitionSegment"@, optional: false }], allow_trailing: false, delimiter: None, terminators: seq![], allow_gaps: true }], bracket_type: "round"@ }, GrammarView::Sequence { elements: seq![GrammarView::Keyword { word: "AS"@ }, GrammarView::OneOf { elements: seq![GrammarView::Bracketed { elements: seq![GrammarView::Ref { name: "SelectableGrammar"@, optional: false }], bracket_type: "round"@ }, GrammarView::Ref { name: "SelectableGrammar"@, optional: false }], terminators: seq![] }, GrammarView::Ref { name: "WithDataClauseSegment"@, optional: false }, GrammarView::Ref { name: "CopyOptionsSegment"@, optional: true }], terminators: seq![], parse_mode: ParseMode::Strict }, GrammarView::Sequence { elements: seq![GrammarView::Keyword { word: "LIKE"@ }, GrammarView::Ref { name: "TableReferenceSegment"@, optional: false }, GrammarView::Ref { name: "CopyOptionsSegment"@, optional: true }], terminators: seq![], parse_mode: ParseMode::Strict }], terminators: seq![] }, GrammarView::AnySetOf { elements: seq![GrammarView::Sequence { elements: seq![GrammarView::Keyword { word: "ORGANIZE"@ }, GrammarView::Keyword { word: "BY"@ }, GrammarView::OneOf { elements: seq![GrammarView::Keyword { word: "ROW"@ }, GrammarView::Keyword { word: "COLUMN"@ }], terminators: seq![] }], terminators: seq![], parse_mode: ParseMode::Strict }, GrammarView::Sequence { elements: seq![GrammarView::Keyword { word: "ON"@ }, GrammarView::Keyword { word: "COMMIT"@ }, GrammarView::OneOf { elements: seq![GrammarView::Keyword { word: "DELETE"@ }, GrammarView::Keyword { word: "PRESERVE"@ }], terminators: seq![] }, GrammarView::Keyword { word: "ROWS"@ }], terminators: seq![], parse_mode: ParseMode::Strict }, GrammarView::OneOf { elements: seq![GrammarView::Keyword { word: "LOGGED"@ }, GrammarView::Sequence { elements: seq![GrammarView::Keyword { word: "NOT"@ }, GrammarView::Keyword { word: "LOGGED"@ }, GrammarView::Optional { grammar: Box::new(GrammarView::Sequence { elements: seq![GrammarView::Keyword { word: "ON"@ }, GrammarView::Keyword { word: "ROLLBACK"@ }, GrammarView::OneOf { elements: seq![GrammarView::Keyword { word: "DELETE"@ }, GrammarView::Keyword { word: "PRESERVE"@ }], terminators: seq![] }, GrammarView::Keyword { word: "ROWS"@ }], terminators: seq![], parse_mode: ParseMode::Strict }) }], terminators: seq![], parse_mode: ParseMode::Strict }], terminators: seq![] }, GrammarView::Sequence { elements: seq![GrammarView::Keyword { word: "WITH"@ }, GrammarView::Keyword { word: "REPLACE"@ }], terminators: seq![], parse_mode: ParseMode::Strict }, GrammarView::Sequence { elements: seq![GrammarView::Keyword { word: "IN"@ }, GrammarView::Ref { name: "TablespaceReferenceSegment"@, optional: false }], terminators: seq![], parse_mode: ParseMode::Strict }, GrammarView::Ref { name: "DeclareDistributionClauseSegment"@, optional: false }] }], terminators: seq![], parse_mode: ParseMode::Strict } }
}

fn build_declare_global_temp_table_segment() -> (e: Element)
    ensures
        e@ =~~= declare_global_temp_table_segment_element(),
{
    let g1: Vec<Grammar> = vec![Grammar::reference("ColumnDefinitionSegment")];
    assert(views(g1@) =~~= seq![GrammarView::Ref { name: "ColumnDefinitionSegment"@, optional: false }]);
    let g2: Vec<Grammar> = Vec::new();
    assert(views(g2@) =~= Seq::<GrammarView>::empty());
    let g3 = Grammar::delimited_with(g1, false, None, g2, true);
    let g4: Vec<Grammar> = vec![g3];
    assert(views(g4@) =~~= seq![GrammarView::Delimited { elements: seq![GrammarView::Ref { name: "ColumnDefinitionSegment"@, optional: false }], allow_trailing: false, delimiter: None, terminators: seq![], allow_gaps: true }]);
    let g5 = Grammar::bracketed_with(g4, "round");
    let g6: Vec<Grammar> = vec![Grammar::reference("SelectableGrammar")];
    assert(views(g6@) =~~= seq![GrammarView::Ref { name: "SelectableGrammar"@, optional: false }]);
    let g7 = Grammar::bracketed_with(g6, "round");
    let g8: Vec<Grammar> = vec![g7, Grammar::reference("SelectableGrammar")];
    assert(views(g8@) =~~= seq![GrammarView::Bracketed { elements: seq![GrammarView::Ref { name: "SelectableGrammar"@, optional: false }], bracket_type: "round"@ }, GrammarView::Ref { name: "SelectableGrammar"@, optional: false }]);
    let g9: Vec<Grammar> = Vec::new();
    assert(views(g9@) =~= Seq::<GrammarView>::empty());
    let g10 = Grammar::one_of_with(g8, g9);
    let g11: Vec<Grammar> = vec![Grammar::keyword("AS"), g10, Grammar::reference("WithDataClauseSegment"), Grammar::optional_reference("CopyOptionsSegment")];
    assert(views(g11@) =~~= seq![GrammarView::Keyword { word: "AS"@ }, GrammarView::OneOf { elements: seq![GrammarView::Bracketed { elements: seq![GrammarView::Ref { name: "SelectableGrammar"@, optional: false }], bracket_type: "round"@ }, GrammarView::Ref { name: "SelectableGrammar"@, optional: false }], terminators: seq![] }, GrammarView::Ref { name: "WithDataClauseSegment"@, optional: false }, GrammarView::Ref { name: "CopyOptionsSegment"@, optional: true }]);
    let g12: Vec<Grammar> = Vec::new();
    assert(views(g12@) =~= Seq::<GrammarView>::empty());
    let g13 = Grammar::sequence_with(g11, g12, ParseMode::Strict);
    let g14: Vec<Grammar> = vec![Grammar::keyword("LIKE"), Grammar::reference("TableReferenceSegment"), Grammar::optional_reference("CopyOptionsSegment")];
    assert(views(g14@) =~~= seq![GrammarView::Keyword { word: "LIKE"@ }, GrammarView::Ref { name: "TableReferenceSegment"@, optional: false }, GrammarView::Ref { name: "CopyOptionsSegment"@, optional: true }]);
    let g15: Vec<Grammar> = Vec::new();
    assert(views(g15@) =~= Seq::<GrammarView>::empty());
    let g16 = Grammar::sequence_with(g14, g15, ParseMode::Strict);
    let g17: Vec<Grammar> = vec![g5, g13, g16];
    assert(views(g17@) =~~= seq![GrammarView::Bracketed { elements: seq![GrammarView::Delimited { elements: seq![GrammarView::Ref { name: "ColumnDefinitionSegment"@, optional: false }], allow_trailing: false, delimiter: None, terminators: seq![], allow_gaps: true }], bracket_type: "round"@ }, GrammarView::Sequence { elements: seq![GrammarView::Keyword { word: "AS"@ }, GrammarView::OneOf { elements: seq![GrammarView::Bracketed { elements: seq![GrammarView::Ref { name: "SelectableGrammar"@, optional: false }], bracket_type: "round"@ }, GrammarView::Ref { name: "SelectableGrammar"@, optional: false }], terminators: seq![] }, GrammarView::Ref { name: "WithDataClauseSegment"@, optional: false }, GrammarView::Ref { name: "CopyOptionsSegment"@, optional: true }], terminators: seq![], parse_mode: ParseMode::Strict }, GrammarView::Sequence { elements: seq![GrammarView::Keyword { word: "LIKE"@ }, GrammarView::Ref { name: "TableReferenceSegment"@, optional: false }, GrammarView::Ref { name: "CopyOptionsSegment"@, optional: true }], terminators: seq![], parse_mode: ParseMode::Strict }]);
    let g18: Vec<Grammar> = Vec::new();
    assert(views(g18@) =~= Seq::<GrammarView>::empty());
    let g19 = Grammar::one_of_with(g17, g18);
    let g20: Vec<Grammar> = vec![Grammar::keyword("ROW"), Grammar::keyword("COLUMN")];
    assert(views(g20@) =~~= seq![GrammarView::Keyword { word: "ROW"@ }, GrammarView::Keyword { word: "COLUMN"@ }]);
    let g21: Vec<Grammar> = Vec::new();
    assert(views(g21@) =~= Seq::<GrammarView>::empty());
    let g22 = Grammar::one_of_with(g20, g21);
    let g23: Vec<Grammar> = vec![Grammar::keyword("ORGANIZE"), Grammar::keyword("BY"), g22];
    assert(views(g23@) =~~= seq![GrammarView::Keyword { word: "ORGANIZE"@ }, GrammarView::Keyword { word: "BY"@ }, GrammarView::OneOf { elements: seq![GrammarView::Keyword { word: "ROW"@ }, GrammarView::Keyword { word: "COLUMN"@ }], terminators: seq![] }]);
    let g24: Vec<Grammar> = Vec::new();
    assert(views(g24@) =~= Seq::<GrammarView>::empty());
    let g25 = Grammar::sequence_with(g23, g24, ParseMode::Strict);
    let g26: Vec<Grammar> = vec![Grammar::keyword("DELETE"), Grammar::keyword("PRESERVE")];
    assert(views(g26@) =~~= seq![GrammarView::Keyword { word: "DELETE"@ }, GrammarView::Keyword { word: "PRESERVE"@ }]);
    let g27: Vec<Grammar> = Vec::new();
    assert(views(g27@) =~= Seq::<GrammarView>::empty());
    let g28 = Grammar::one_of_with(g26, g27);
    let g29: Vec<Grammar> = vec![Grammar::keyword("ON"), Grammar::keyword("COMMIT"), g28, Grammar::keyword("ROWS")];
    assert(views(g29@) =~~= seq![GrammarView::Keyword { word: "ON"@ }, GrammarView::Keyword { word: "COMMIT"@ }, GrammarView::OneOf { elements: seq![GrammarView::Keyword { word: "DELETE"@ }, GrammarView::Keyword { word: "PRESERVE"@ }], terminators: seq![] }, GrammarView::Keyword { word: "ROWS"@ }]);
    let g30: Vec<Grammar> = Vec::new();
    assert(views(g30@) =~= Seq::<GrammarView>::empty());
    let g31 = Grammar::sequence_with(g29, g30, ParseMode::Strict);
    let g32: Vec<Grammar> = vec![Grammar::keyword("DELETE"), Grammar::keyword("PRESERVE")];
    assert(views(g32@) =~~= seq![GrammarView::Keyword { word: "DELETE"@ }, GrammarView::Keyword { word: "PRESERVE"@ }]);
    let g33: Vec<Grammar> = Vec::new();
    assert(views(g33@) =~= Seq::<GrammarView>::empty());
    let g34 = Grammar::one_of_with(g32, g33);
    let g35: Vec<Grammar> = vec![Grammar::keyword("ON"), Grammar::keyword("ROLLBACK"), g34, Grammar::keyword("ROWS")];
    assert(views(g35@) =~~= seq![GrammarView::Keyword { word: "ON"@ }, GrammarView::Keyword { word: "ROLLBACK"@ }, GrammarView::OneOf { elements: seq![GrammarView::Keyword { word: "DELETE"@ }, GrammarView::Keyword { word: "PRESERVE"@ }], terminators: seq![] }, GrammarView::Keyword { word: "ROWS"@ }]);
    let g36: Vec<Grammar> = Vec::new();
    assert(views(g36@) =~= Seq::<GrammarView>::empty());
    let g37 = Grammar::sequence_with(g35, g36, ParseMode::Strict);
    let g38 = g37.optional();
    let g39: Vec<Grammar> = vec![Grammar::keyword("NOT"), Grammar::keyword("LOGGED"), g38];
    assert(views(g39@) =~~= seq![GrammarView::Keyword { word: "NOT"@ }, GrammarView::Keyword { word: "LOGGED"@ }, GrammarView::Optional { grammar: Box::new(GrammarView::Sequence { elements: seq![GrammarView::Keyword { word: "ON"@ }, GrammarView::Keyword { word: "ROLLBACK"@ }, GrammarView::OneOf { elements: seq![GrammarView::Keyword { word: "DELETE"@ }, GrammarView::Keyword { word: "PRESERVE"@ }], terminators: seq![] }, GrammarView::Keyword { word: "ROWS"@ }], terminators: seq![], parse_mode: ParseMode::Strict }) }]);
    let g40: Vec<Grammar> = Vec::new();
    assert(views(g40@) =~= Seq::<GrammarView>::empty());
    let g41 = Grammar::sequence_with(g39, g40, ParseMode::Strict);
    let g42: Vec<Grammar> = vec![Grammar::keyword("LOGGED"), g41];
    assert(views(g42@) =~~= seq![GrammarView::Keyword { word: "LOGGED"@ }, GrammarView::Sequence { elements: seq![GrammarView::Keyword { word: "NOT"@ }, GrammarView::Keyword { word: "LOGGED"@ }, GrammarView::Optional { grammar: Box::new(GrammarView::Sequence { elements: seq![GrammarView::Keyword { word: "ON"@ }, GrammarView::Keyword { word: "ROLLBACK"@ }, GrammarView::OneOf { elements: seq![GrammarView::Keyword { word: "DELETE"@ }, GrammarView::Keyword { word: "PRESERVE"@ }], terminators: seq![] }, GrammarView::Keyword { word: "ROWS"@ }], terminators: seq![], parse_mode: ParseMode::Strict }) }], terminators: seq![], parse_mode: ParseMode::Strict }]);
    let g43: Vec<Grammar> = Vec::new();
    assert(views(g43@) =~= Seq::<GrammarView>::empty());
    let g44 = Grammar::one_of_with(g42, g43);
    let g45: Vec<Grammar> = vec![Grammar::keyword("WITH"), Grammar::keyword("REPLACE")];
    assert(views(g45@) =~~= seq![GrammarView::Keyword { word: "WITH"@ }, GrammarView::Keyword { word: "REPLACE"@ }]);
    let g46: Vec<Grammar> = Vec::new();
    assert(views(g46@) =~= Seq::<GrammarView>::empty());
    let g47 = Grammar::sequence_with(g45, g46, ParseMode::Strict);
    let g48: Vec<Grammar> = vec![Grammar::keyword("IN"), Grammar::reference("TablespaceReferenceSegment")];
    assert(views(g48@) =~~= seq![GrammarView::Keyword { word: "IN"@ }, GrammarView::Ref { name: "TablespaceReferenceSegment"@, optional: false }]);
    let g49: Vec<Grammar> = Vec::new();
    assert(views(g49@) =~= Seq::<GrammarView>::empty());
    let g50 = Grammar::sequence_with(g48, g49, ParseMode::Strict);
    let g51: Vec<Grammar> = vec![g25, g31, g44, g47, g50, Grammar::reference("DeclareDistributionClauseSegment")];
    assert(views(g51@) =~~= seq![GrammarView::Sequence { elements: seq![GrammarView::Keyword { word: "ORGANIZE"@ }, GrammarView::Keyword { word: "BY"@ }, GrammarView::OneOf { elements: seq![GrammarView::Keyword { word: "ROW"@ }, GrammarView::Keyword { word: "COLUMN"@ }], terminators: seq![] }], terminators: seq![], parse_mode: ParseMode::Strict }, GrammarView::Sequence { elements: seq![GrammarView::Keyword { word: "ON"@ }, GrammarView::Keyword { word: "COMMIT"@ }, GrammarView::OneOf { elements: seq![GrammarView::Keyword { word: "DELETE"@ }, GrammarView::Keyword { word: "PRESERVE"@ }], terminators: seq![] }, GrammarView::Keyword { word: "ROWS"@ }], terminators: seq![], parse_mode: ParseMode::Strict }, GrammarView::OneOf { elements: seq![GrammarView::Keyword { word: "LOGGED"@ }, GrammarView::Sequence { elements: seq![GrammarView::Keyword { word: "NOT"@ }, GrammarView::Keyword { word: "LOGGED"@ }, GrammarView::Optional { grammar: Box::new(GrammarView::Sequence { elements: seq![GrammarView::Keyword { word: "ON"@ }, GrammarView::Keyword { word: "ROLLBACK"@ }, GrammarView::OneOf { elements: seq![GrammarView::Keyword { word: "DELETE"@ }, GrammarView::Keyword { word: "PRESERVE"@ }], terminators: seq![] }, GrammarView::Keyword { word: "ROWS"@ }], terminators: seq![], parse_mode: ParseMode::Strict }) }], terminators: seq![], parse_mode: ParseMode::Strict }], terminators: seq![] }, GrammarView::Sequence { elements: seq![GrammarView::Keyword { word: "WITH"@ }, GrammarView::Keyword { word: "REPLACE"@ }], terminators: seq![], parse_mode: ParseMode::Strict }, GrammarView::Sequence { elements: seq![GrammarView::Keyword { word: "IN"@ }, GrammarView::Ref { name: "TablespaceReferenceSegment"@, optional: false }], terminators: seq![], parse_mode: ParseMode::Strict }, GrammarView::Ref { name: "DeclareDistributionClauseSegment"@, optional: false }]);
    let g52 = Grammar::any_set_of(g51);
    let g53: Vec<Grammar> = vec![Grammar::keyword("DECLARE"), Grammar::keyword("GLOBAL"), Grammar::keyword("TEMPORARY"), Grammar::keyword("TABLE"), Grammar::reference("TableReferenceSegment"), g19, g52];
    assert(views(g53@) =~~= seq![GrammarView::Keyword { word: "DECLARE"@ }, GrammarView::Keyword { word: "GLOBAL"@ }, GrammarView::Keyword { word: "TEMPORARY"@ }, GrammarView::Keyword { word: "TABLE"@ }, GrammarView::Ref { name: "TableReferenceSegment"@, optional: false }, GrammarView::OneOf { elements: seq![GrammarView::Bracketed { elements: seq![GrammarView::Delimited { elements: seq![GrammarView::Ref { name: "ColumnDefinitionSegment"@, optional: false }], allow_trailing: false, delimiter: None, terminators: seq![], allow_gaps: true }], bracket_type: "round"@ }, GrammarView::Sequence { elements: seq![GrammarView::Keyword { word: "AS"@ }, GrammarView::OneOf { elements: seq![GrammarView::Bracketed { elements: seq![GrammarView::Ref { name: "SelectableGrammar"@, optional: false }], bracket_type: "round"@ }, GrammarView::Ref { name: "SelectableGrammar"@, optional: false }], terminators: seq![] }, GrammarView::Ref { name: "WithDataClauseSegment"@, optional: false }, GrammarView::Ref { name: "CopyOptionsSegment"@, optional: true }], terminators: seq![], parse_mode: ParseMode::Strict }, GrammarView::Sequence { elements: seq![GrammarView::Keyword { word: "LIKE"@ }, GrammarView::Ref { name: "TableReferenceSegment"@, optional: false }, GrammarView::Ref { name: "CopyOptionsSegment"@, optional: true }], terminators: seq![], parse_mode: ParseMode::Strict }], terminators: seq![] }, GrammarView::AnySetOf { elements: seq![GrammarView::Sequence { elements: seq![GrammarView::Keyword { word: "ORGANIZE"@ }, GrammarView::Keyword { word: "BY"@ }, GrammarView::OneOf { elements: seq![GrammarView::Keyword { word: "ROW"@ }, GrammarView::Keyword { word: "COLUMN"@ }], terminators: seq![] }], terminators: seq![], parse_mode: ParseMode::Strict }, GrammarView::Sequence { elements: seq![GrammarView::Keyword { word: "ON"@ }, GrammarView::Keyword { word: "COMMIT"@ }, GrammarView::OneOf { elements: seq![GrammarView::Keyword { word: "DELETE"@ }, GrammarView::Keyword { word: "PRESERVE"@ }], terminators: seq![] }, GrammarView::Keyword { word: "ROWS"@ }], terminators: seq![], parse_mode: ParseMode::Strict }, GrammarView::OneOf { elements: seq![GrammarView::Keyword { word: "LOGGED"@ }, GrammarView::Sequence { elements: seq![GrammarView::Keyword { word: "NOT"@ }, GrammarView::Keyword { word: "LOGGED"@ }, GrammarView::Optional { grammar: Box::new(GrammarView::Sequence { elements: seq![GrammarView::Keyword { word: "ON"@ }, GrammarView::Keyword { word: "ROLLBACK"@ }, GrammarView::OneOf { elements: seq![GrammarView::Keyword { word: "DELETE"@ }, GrammarView::Keyword { word: "PRESERVE"@ }], terminators: seq![] }, GrammarView::Keyword { word: "ROWS"@ }], terminators: seq![], parse_mode: ParseMode::Strict }) }], terminators: seq![], parse_mode: ParseMode::Strict }], terminators: seq![] }, GrammarView::Sequence { elements: seq![GrammarView::Keyword { word: "WITH"@ }, GrammarView::Keyword { word: "REPLACE"@ }], terminators: seq![], parse_mode: ParseMode::Strict }, GrammarView::Sequence { elements: seq![GrammarView::Keyword { word: "IN"@ }, GrammarView::Ref { name: "TablespaceReferenceSegment"@, optional: false }], terminators: seq![], parse_mode: ParseMode::Strict }, GrammarView::Ref { name: "DeclareDistributionClauseSegment"@, optional: false }] }]);
    let g54: Vec<Grammar> = Vec::new();
    assert(views(g54@) =~= Seq::<GrammarView>::empty());
    let g55 = Grammar::sequence_with(g53, g54, ParseMode::Strict);
    Element::Node { kind: "declare_segment", grammar: g55 }
}

/// The DB2 element `DeclareDistributionClauseSegment`.
pub open spec fn declare_distribution_clause_segment_element() -> ElementView {
    ElementView::Node { kind: "distribution_segment"@, grammar: GrammarView::Sequence { elements: seq![GrammarView::Keyword { word: "DISTRIBUTE"@ }, GrammarView::OneOf { elements: seq![GrammarView::Keyword { word: "BY"@ }, GrammarView::Keyword { word: "ON"@ }], terminators: seq![] }, GrammarView::OneOf { elements: seq![GrammarView::Sequence { elements: seq![GrammarView::Optional { grammar: Box::new(GrammarView::Keyword { word: "HASH"@ }) }, GrammarView::Bracketed { elements: seq![GrammarView::Delimited { elements: seq![GrammarView::Ref { name: "ColumnReferenceSegment"@, optional: false }], allow_trailing: false, delimiter: None, terminators: seq![], allow_gaps: true }], bracket_type: "round"@ }], terminators: seq![], parse_mode: ParseMode::Strict }, GrammarView::Keyword { word: "RANDOM"@ }], terminators: seq![] }], terminators: seq![], parse_mode: ParseMode::Strict } }
}

fn build_declare_distribution_clause_segment() -> (e: Element)
    ensures
        e@ =~~= declare_distribution_clause_segment_element(),
{
    let g1: Vec<Grammar> = vec![Grammar::keyword("BY"), Grammar::keyword("ON")];
    assert(views(g1@) =~~= seq![GrammarView::Keyword { word: "BY"@ }, GrammarView::Keyword { word: "ON"@ }]);
    let g2: Vec<Grammar> = Vec::new();
    assert(views(g2@) =~= Seq::<GrammarView>::empty());
    let g3 = Grammar::one_of_with(g1, g2);
    let g4 = Grammar::keyword("HASH").optional();
    let g5: Vec<Grammar> = vec![Grammar::reference("ColumnReferenceSegment")];
    assert(views(g5@) =~~= seq![GrammarView::Ref { name: "ColumnReferenceSegment"@, optional: false }]);
    let g6: Vec<Grammar> = Vec::new();
    assert(views(g6@) =~= Seq::<GrammarView>::empty());
    let g7 = Grammar::delimited_with(g5, false, None, g6, true);
    let g8: Vec<Grammar> = vec![g7];
    assert(views(g8@) =~~= seq![GrammarView::Delimited { elements: seq![GrammarView::Ref { name: "ColumnReferenceSegment"@, optional: false }], allow_trailing: false, delimiter: None, terminators: seq![], allow_gaps: true }]);
    let g9 = Grammar::bracketed_with(g8, "round");
    let g10: Vec<Grammar> = vec![g4, g9];
    assert(views(g10@) =~~= seq![GrammarView::Optional { grammar: Box::new(GrammarView::Keyword { word: "HASH"@ }) }, GrammarView::Bracketed { elements: seq![GrammarView::Delimited { elements: seq![GrammarView::Ref { name: "ColumnReferenceSegment"@, optional: false }], allow_trailing: false, delimiter: None, terminators: seq![], allow_gaps: true }], bracket_type: "round"@ }]);
    let g11: Vec<Grammar> = Vec::new();
    assert(views(g11@) =~= Seq::<GrammarView>::empty());
    let g12 = Grammar::sequence_with(g10, g11, ParseMode::Strict);
    let g13: Vec<Grammar> = vec![g12, Grammar::keyword("RANDOM")];
    assert(views(g13@) =~~= seq![GrammarView::Sequence { elements: seq![GrammarView::Optional { grammar: Box::new(GrammarView::Keyword { word: "HASH"@ }) }, GrammarView::Bracketed { elements: seq![GrammarView::Delimited { elements: seq![GrammarView::Ref { name: "ColumnReferenceSegment"@, optional: false }], allow_trailing: false, delimiter: None, terminators: seq![], allow_gaps: true }], bracket_type: "round"@ }], terminators: seq![], parse_mode: ParseMode::Strict }, GrammarView::Keyword { word: "RANDOM"@ }]);
    let g14: Vec<Grammar> = Vec::new();
    assert(views(g14@) =~= Seq::<GrammarView>::empty());
    let g15 = Grammar::one_of_with(g13, g14);
    let g16: Vec<Grammar> = vec![Grammar::keyword("DISTRIBUTE"), g3, g15];
    assert(views(g16@) =~~= seq![GrammarView::Keyword { word: "DISTRIBUTE"@ }, GrammarView::OneOf { elements: seq![GrammarView::Keyword { word: "BY"@ }, GrammarView::Keyword { word: "ON"@ }], terminators: seq![] }, GrammarView::OneOf { elements: seq![GrammarView::Sequence { elements: seq![GrammarView::Optional { grammar: Box::new(GrammarView::Keyword { word: "HASH"@ }) }, GrammarView::Bracketed { elements: seq![GrammarView::Delimited { elements: seq![GrammarView::Ref { name: "ColumnReferenceSegment"@, optional: false }], allow_trailing: false, delimiter: None, terminators: seq![], allow_gaps: true }], bracket_type: "round"@ }], terminators: seq![], parse_mode: ParseMode::Strict }, GrammarView::Keyword { word: "RANDOM"@ }], terminators: seq![] }]);
    let g17: Vec<Grammar> = Vec::new();
    assert(views(g17@) =~= Seq::<GrammarView>::empty());
    let g18 = Grammar::sequence_with(g16, g17, ParseMode::Strict);
    Element::Node { kind: "distribution_segment", grammar: g18 }
}

/// The DB2 element `NamedArgumentSegment`.
pub open spec fn named_argument_segment_element() -> ElementView {
    ElementView::Node { kind: "named_argument"@, grammar: GrammarView::Sequence { elements: seq![GrammarView::Ref { name: "NakedIdentifierSegment"@, optional: false }, GrammarView::Ref { name: "RightArrowSegment"@, optional: false }, GrammarView::Ref { name: "ExpressionSegment"@, optional: false }], terminators: seq![], parse_mode: ParseMode::Strict } }
}

fn build_named_argument_segment() -> (e: Element)
    ensures
        e@ =~~= named_argument_segment_element(),
{
    let g1: Vec<Grammar> = vec![Grammar::reference("NakedIdentifierSegment"), Grammar::reference("RightArrowSegment"), Grammar::reference("ExpressionSegment")];
    assert(views(g1@) =~~= seq![GrammarView::Ref { name: "NakedIdentifierSegment"@, optional: false }, GrammarView::Ref { name: "RightArrowSegment"@, optional: false }, GrammarView::Ref { name: "ExpressionSegment"@, optional: false }]);
    let g2: Vec<Grammar> = Vec::new();
    assert(views(g2@) =~= Seq::<GrammarView>::empty());
    let g3 = Grammar::sequence_with(g1, g2, ParseMode::Strict);
    Element::Node { kind: "named_argument", grammar: g3 }
}

/// The DB2 element `OffsetClauseSegment`.
pub open spec fn offset_clause_segment_element() -> ElementView {
    ElementView::Node { kind: "offset_clause"@, grammar: GrammarView::Sequence { elements: seq![GrammarView::Keyword { word: "OFFSET"@ }, GrammarView::OneOf { elements: seq![GrammarView::Ref { name: "NumericLiteralSegment"@, optional: false }, GrammarView::Ref { name: "ExpressionSegment"@, optional: false }], terminators: seq![] }, GrammarView::OneOf { elements: seq![GrammarView::Keyword { word: "ROW"@ }, GrammarView::Keyword { word: "ROWS"@ }], terminators: seq![] }], terminators: seq![], parse_mode: ParseMode::Strict } }
}

fn build_offset_clause_segment() -> (e: Element)
    ensures
        e@ =~~= offset_clause_segment_element(),
{
    let g1: Vec<Grammar> = vec![Grammar::reference("NumericLiteralSegment"), Grammar::reference("ExpressionSegment")];
    assert(views(g1@) =~~= seq![GrammarView::Ref { name: "NumericLiteralSegment"@, optional: false }, GrammarView::Ref { name: "ExpressionSegment"@, optional: false }]);
    let g2: Vec<Grammar> = Vec::new();
    assert(views(g2@) =~= Seq::<GrammarView>::empty());
    let g3 = Grammar::one_of_with(g1, g2);
    let g4: Vec<Grammar> = vec![Grammar::keyword("ROW"), Grammar::keyword("ROWS")];
    assert(views(g4@) =~~= seq![GrammarView::Keyword { word: "ROW"@ }, GrammarView::Keyword { word: "ROWS"@ }]);
    let g5: Vec<Grammar> = Vec::new();
    assert(views(g5@) =~= Seq::<GrammarView>::empty());
    let g6 = Grammar::one_of_with(g4, g5);
    let g7: Vec<Grammar> = vec![Grammar::keyword("OFFSET"), g3, g6];
    assert(views(g7@) =~~= seq![GrammarView::Keyword { word: "OFFSET"@ }, GrammarView::OneOf { elements: seq![GrammarView::Ref { name: "NumericLiteralSegment"@, optional: false }, GrammarView::Ref { name: "ExpressionSegment"@, optional: false }], terminators: seq![] }, GrammarView::OneOf { elements: seq![GrammarView::Keyword { word: "ROW"@ }, GrammarView::Keyword { word: "ROWS"@ }], terminators: seq![] }]);
    let g8: Vec<Grammar> = Vec::new();
    assert(views(g8@) =~= Seq::<GrammarView>::empty());
    let g9 = Grammar::sequence_with(g7, g8, ParseMode::Strict);
    Element::Node { kind: "offset_clause", grammar: g9 }
}

/// The DB2 element `NakedIdentifierSegment`.
pub open spec fn naked_identifier_segment_element() -> ElementView {
    ElementView::IdentifierNotIn { pattern: "[\\p{L}\\p{N}_]*[\\p{L}][\\p{L}\\p{N}_]*"@, kind: "naked_identifier"@, set: "reserved_keywords"@ }
}

fn build_naked_identifier_segment() -> (e: Element)
    ensures
        e@ =~~= naked_identifier_segment_element(),
{
    Element::IdentifierNotIn { pattern: "[\\p{L}\\p{N}_]*[\\p{L}][\\p{L}\\p{N}_]*", kind: "naked_identifier", set: "reserved_keywords" }
}

/// The DB2 element `PostFunctionGrammar`.
pub open spec fn post_function_grammar_element() -> ElementView {
    ElementView::Grammar(GrammarView::OneOf { elements: seq![GrammarView::Ref { name: "OverClauseSegment"@, optional: false }, GrammarView::Ref { name: "WithinGroupClauseSegment"@, optional: false }], terminators: seq![] })
}

fn build_post_function_grammar() -> (e: Element)
    ensures
        e@ =~~= post_function_grammar_element(),
{
    let g1: Vec<Grammar> = vec![Grammar::reference("OverClauseSegment"), Grammar::reference("WithinGroupClauseSegment")];
    assert(views(g1@) =~~= seq![GrammarView::Ref { name: "OverClauseSegment"@, optional: false }, GrammarView::Ref { name: "WithinGroupClauseSegment"@, optional: false }]);
    let g2: Vec<Grammar> = Vec::new();
    assert(views(g2@) =~= Seq::<GrammarView>::empty());
    let g3 = Grammar::one_of_with(g1, g2);
    Element::Grammar(g3)
}

/// The DB2 element `Expression_C_Grammar`.
pub open spec fn expression_c_grammar_element() -> ElementView {
    ElementView::Grammar(GrammarView::OneOf { elements: seq![GrammarView::Sequence { elements: seq![GrammarView::Keyword { word: "EXISTS"@ }, GrammarView::Bracketed { elements: seq![GrammarView::Ref { name: "SelectableGrammar"@, optional: false }], bracket_type: "round"@ }], terminators: seq![], parse_mode: ParseMode::Strict }, GrammarView::Sequence { elements: seq![GrammarView::OneOf { elements: seq![GrammarView::Ref { name: "Expression_D_Grammar"@, optional: false }, GrammarView::Ref { name: "CaseExpressionSegment"@, optional: false }], terminators: seq![] }, GrammarView::Optional { grammar: Box::new(GrammarView::AnyNumberOf { elements: seq![GrammarView::Ref { name: "TimeZoneGrammar"@, optional: false }], terminators: seq![], min_times: 0, max_times: None }) }], terminators: seq![], parse_mode: ParseMode::Strict }, GrammarView::Ref { name: "ShorthandCastSegment"@, optional: false }, GrammarView::Ref { name: "LabeledDurationGrammar"@, optional: false }], terminators: seq![GrammarView::Ref { name: "CommaSegment"@, optional: false }] })
}

fn build_expression_c_grammar() -> (e: Element)
    ensures
        e@ =~~= expression_c_grammar_element(),
{
    let g1: Vec<Grammar> = vec![Grammar::reference("SelectableGrammar")];
    assert(views(g1@) =~~= seq![GrammarView::Ref { name: "SelectableGrammar"@, optional: false }]);
    let g2 = Grammar::bracketed_with(g1, "round");
    let g3: Vec<Grammar> = vec![Grammar::keyword("EXISTS"), g2];
    assert(views(g3@) =~~= seq![GrammarView::Keyword { word: "EXISTS"@ }, GrammarView::Bracketed { elements: seq![GrammarView::Ref { name: "SelectableGrammar"@, optional: false }], bracket_type: "round"@ }]);
    let g4: Vec<Grammar> = Vec::new();
    assert(views(g4@) =~= Seq::<GrammarView>::empty());
    let g5 = Grammar::sequence_with(g3, g4, ParseMode::Strict);
    let g6: Vec<Grammar> = vec![Grammar::reference("Expression_D_Grammar"), Grammar::reference("CaseExpressionSegment")];
    assert(views(g6@) =~~= seq![GrammarView::Ref { name: "Expression_D_Grammar"@, optional: false }, GrammarView::Ref { name: "CaseExpressionSegment"@, optional: false }]);
    let g7: Vec<Grammar> = Vec::new();
    assert(views(g7@) =~= Seq::<GrammarView>::empty());
    let g8 = Grammar::one_of_with(g6, g7);
    let g9: Vec<Grammar> = vec![Grammar::reference("TimeZoneGrammar")];
    assert(views(g9@) =~~= seq![GrammarView::Ref { name: "TimeZoneGrammar"@, optional: false }]);
    let g10: Vec<Grammar> = Vec::new();
    assert(views(g10@) =~= Seq::<GrammarView>::empty());
    let g11 = Grammar::any_number_of_with(g9, g10, 0, None);
    let g12 = g11.optional();
    let g13: Vec<Grammar> = vec![g8, g12];
    assert(views(g13@) =~~= seq![GrammarView::OneOf { elements: seq![GrammarView::Ref { name: "Expression_D_Grammar"@, optional: false }, GrammarView::Ref { name: "CaseExpressionSegment"@, optional: false }], terminators: seq![] }, GrammarView::Optional { grammar: Box::new(GrammarView::AnyNumberOf { elements: seq![GrammarView::Ref { name: "TimeZoneGrammar"@, optional: false }], terminators: seq![], min_times: 0, max_times: None }) }]);
    let g14: Vec<Grammar> = Vec::new();
    assert(views(g14@) =~= Seq::<GrammarView>::empty());
    let g15 = Grammar::sequence_with(g13, g14, ParseMode::Strict);
    let g16: Vec<Grammar> = vec![g5, g15, Grammar::reference("ShorthandCastSegment"), Grammar::reference("LabeledDurationGrammar")];
    assert(views(g16@) =~~= seq![GrammarView::Sequence { elements: seq![GrammarView::Keyword { word: "EXISTS"@ }, GrammarView::Bracketed { elements: seq![GrammarView::Ref { name: "SelectableGrammar"@, optional: false }], bracket_type: "round"@ }], terminators: seq![], parse_mode: ParseMode::Strict }, GrammarView::Sequence { elements: seq![GrammarView::OneOf { elements: seq![GrammarView::Ref { name: "Expression_D_Grammar"@, optional: false }, GrammarView::Ref { name: "CaseExpressionSegment"@, optional: false }], terminators: seq![] }, GrammarView::Optional { grammar: Box::new(GrammarView::AnyNumberOf { elements: seq![GrammarView::Ref { name: "TimeZoneGrammar"@, optional: false }], terminators: seq![], min_times: 0, max_times: None }) }], terminators: seq![], parse_mode: ParseMode::Strict }, GrammarView::Ref { name: "ShorthandCastSegment"@, optional: false }, GrammarView::Ref { name: "LabeledDurationGrammar"@, optional: false }]);
    let g17: Vec<Grammar> = vec![Grammar::reference("CommaSegment")];
    assert(views(g17@) =~~= seq![GrammarView::Ref { name: "CommaSegment"@, optional: false }]);
    let g18 = Grammar::one_of_with(g16, g17);
    Element::Grammar(g18)
}

/// The DB2 element `WithinGroupClauseSegment`.
pub open spec fn within_group_clause_segment_element() -> ElementView {
    ElementView::Node { kind: "withingroup_clause"@, grammar: GrammarView::Sequence { elements: seq![GrammarView::Keyword { word: "WITHIN"@ }, GrammarView::Keyword { word: "GROUP"@ }, GrammarView::Bracketed { elements: seq![GrammarView::Ref { name: "OrderByClauseSegment"@, optional: true }], bracket_type: "round"@ }], terminators: seq![], parse_mode: ParseMode::Strict } }
}

fn build_within_group_clause_segment() -> (e: Element)
    ensures
        e@ =~~= within_group_clause_segment_element(),
{
    let g1: Vec<Grammar> = vec![Grammar::optional_reference("OrderByClauseSegment")];
    assert(views(g1@) =~~= seq![GrammarView::Ref { name: "OrderByClauseSegment"@, optional: true }]);
    let g2 = Grammar::bracketed_with(g1, "round");
    let g3: Vec<Grammar> = vec![Grammar::keyword("WITHIN"), Grammar::keyword("GROUP"), g2];
    assert(views(g3@) =~~= seq![GrammarView::Keyword { word: "WITHIN"@ }, GrammarView::Keyword { word: "GROUP"@ }, GrammarView::Bracketed { elements: seq![GrammarView::Ref { name: "OrderByClauseSegment"@, optional: true }], bracket_type: "round"@ }]);
    let g4: Vec<Grammar> = Vec::new();
    assert(views(g4@) =~= Seq::<GrammarView>::empty());
    let g5 = Grammar::sequence_with(g3, g4, ParseMode::Strict);
    Element::Node { kind: "withingroup_clause", grammar: g5 }
}

/// Elements 1 to 13 of the DB2 library, added to `lib`.
pub open spec fn db2_library_part_0(lib: Map<Seq<char>, ElementView>) -> Map<Seq<char>, ElementView> {
    lib
        .insert("RightArrowSegment"@, right_arrow_segment_element())
        .insert("LabeledDurationGrammar"@, labeled_duration_grammar_element())
        .insert("SpecialRegisterGrammar"@, special_register_grammar_element())
        .insert("BareFunctionSegment"@, bare_function_segment_element())
        .insert("CopyOptionsSegment"@, copy_options_segment_element())
        .insert("DeclareGlobalTempTableSegment"@, declare_global_temp_table_segment_element())
        .insert("DeclareDistributionClauseSegment"@, declare_distribution_clause_segment_element())
        .insert("NamedArgumentSegment"@, named_argument_segment_element())
        .insert("OffsetClauseSegment"@, offset_clause_segment_element())
        .insert("NakedIdentifierSegment"@, naked_identifier_segment_element())
        .insert("PostFunctionGrammar"@, post_function_grammar_element())
        .insert("Expression_C_Grammar"@, expression_c_grammar_element())
        .insert("WithinGroupClauseSegment"@, within_group_clause_segment_element())
}

fn add_db2_library_part_0(d: &mut DialectModel)
    ensures
        final(d)@ == (DialectView { library: db2_library_part_0(old(d)@.library), ..old(d)@ }),
{
    d.add("RightArrowSegment", build_right_arrow_segment());
    d.add("LabeledDurationGrammar", build_labeled_duration_grammar());
    d.add("SpecialRegisterGrammar", build_special_register_grammar());
    d.add("BareFunctionSegment", build_bare_function_segment());
    d.add("CopyOptionsSegment", build_copy_options_segment());
    d.add("DeclareGlobalTempTableSegment", build_declare_global_temp_table_segment());
    d.add("DeclareDistributionClauseSegment", build_declare_distribution_clause_segment());
    d.add("NamedArgumentSegment", build_named_argument_segment());
    d.add("OffsetClauseSegment", build_offset_clause_segment());
    d.add("NakedIdentifierSegment", build_naked_identifier_segment());
    d.add("PostFunctionGrammar", build_post_function_grammar());
    d.add("Expression_C_Grammar", build_expression_c_grammar());
    d.add("WithinGroupClauseSegment", build_within_group_clause_segment());
}

/// The DB2 library, added to `lib` (opaque: `reveal(db2_library)` shows its parts).
#[verifier::opaque]
pub open spec fn db2_library(lib: Map<Seq<char>, ElementView>) -> Map<Seq<char>, ElementView> {
    db2_library_part_0(lib)
}

/// Adds the DB2 library to `d`.
pub fn add_db2_library(d: &mut DialectModel)
    ensures
        final(d)@ == (DialectView { library: db2_library(old(d)@.library), ..old(d)@ }),
{
    add_db2_library_part_0(d);
    proof {
        reveal(db2_library);
    }
}

} // verus!
