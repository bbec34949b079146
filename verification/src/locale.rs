//! User-facing text in the five product locales.
//!
//! Fixed labels are plain per-locale tables. Dynamic text (status lines,
//! detail lines, sub-agent event titles, approval choices) is translated by
//! looking a key up in a [`Table`] of [`Localized`] rows; text that no row
//! knows passes through unchanged.
use vstd::prelude::*;

use crate::slash_command::SlashCommand;
use crate::text::{
    chars_of, dec, find_char, is_prefix, matches_str, owned, position_of, push_dec,
    starts_with_str, string_of, trim, trim_start, trim_start_index, trimmed,
};

verus! {

/// A product locale.
#[derive(Clone, Copy, Debug, PartialEq, Eq, Structural)]
pub enum Locale {
    ZhCn,
    ZhTw,
    EnUs,
    JaJp,
    KoKr,
}

impl Default for Locale {
    /// English is the fallback locale.
    fn default() -> (r: Self)
        ensures
            r == Locale::EnUs,
    {
        Locale::EnUs
    }
}

/// How a character of a locale tag is normalised: `_` becomes `-` and ASCII
/// upper case becomes lower case.
pub open spec fn tag_char(c: char) -> char {
    if c == '_' {
        '-'
    } else if 'A' <= c && c <= 'Z' {
        ((c as u32) + 32) as char
    } else {
        c
    }
}

/// A locale tag trimmed, with `_` replaced by `-` and ASCII-lowercased.
pub open spec fn normalize_tag(s: Seq<char>) -> Seq<char> {
    trim(s).map_values(|c: char| tag_char(c))
}

/// The locale a tag names: the Chinese, Japanese, Korean and English
/// families by their language subtag, Traditional Chinese by `zh-tw` or the
/// `Hant` script; anything else names none.
pub open spec fn parse_tag(s: Seq<char>) -> Option<Locale> {
    let n = normalize_tag(s);
    if n.len() == 0 {
        None
    } else if n == "zh-tw"@ || is_prefix("zh-hant"@, n) || is_prefix("zh-tw-"@, n) {
        Some(Locale::ZhTw)
    } else if n == "zh"@ || n == "zh-cn"@ || is_prefix("zh-hans"@, n) || is_prefix("zh-cn-"@, n) {
        Some(Locale::ZhCn)
    } else if n == "ja"@ || is_prefix("ja-"@, n) {
        Some(Locale::JaJp)
    } else if n == "ko"@ || is_prefix("ko-"@, n) {
        Some(Locale::KoKr)
    } else if n == "en"@ || is_prefix("en-"@, n) {
        Some(Locale::EnUs)
    } else {
        None
    }
}

/// A trimmed text neither starts nor ends with white space.
proof fn lemma_trim_ends(s: Seq<char>)
    ensures
        trim(s).len() > 0 ==> !crate::text::is_ws(trim(s)[0]) && !crate::text::is_ws(trim(s).last()),
{
    let u = trim_start(s);
    crate::text::lemma_lead_ws(s);
    crate::text::lemma_trail_ws(u);
    if trim(s).len() > 0 {
        assert(trim(s)[0] == u[0]);
        assert(u[0] == s[crate::text::lead_ws(s) as int]);
        assert(trim(s).last() == u[u.len() - crate::text::trail_ws(u) - 1]);
    }
}

/// Parsing a tag reads only its normal form: surrounding white space, `_`
/// against `-` and ASCII case never matter, and a blank tag names no
/// locale.
pub proof fn lemma_parse_reads_normal_form(s: Seq<char>)
    ensures
        parse_tag(s) == parse_tag(normalize_tag(s)),
        trim(s).len() == 0 ==> parse_tag(s) is None,
{
    let n = normalize_tag(s);
    let t = trim(s);
    lemma_trim_ends(s);
    assert forall|c: char| !crate::text::is_ws(c) implies !crate::text::is_ws(#[trigger] tag_char(c)) by {}
    if n.len() > 0 {
        assert(n[0] == tag_char(t[0]));
        assert(n.last() == tag_char(t.last()));
    }
    crate::text::lemma_lead_ws_is(n, 0);
    crate::text::lemma_trail_ws_is(n, n.len() as int);
    assert(trim_start(n) =~= n);
    assert(trim(n) =~= n);
    assert(normalize_tag(n) =~= n) by {
        assert forall|i: int| 0 <= i < n.len() implies tag_char(#[trigger] n[i]) == n[i] by {
            assert(n[i] == tag_char(t[i]));
        }
    }
}

/// `parse_tag` of an optional tag.
pub open spec fn parse_opt(o: Option<&str>) -> Option<Locale> {
    match o {
        Some(s) => parse_tag(s@),
        None => None,
    }
}

/// The first of the candidate tags that names a locale, in order; English
/// when none does.
pub open spec fn resolve_spec(
    explicit: Option<&str>,
    lime_locale: Option<&str>,
    lc_all: Option<&str>,
    lang: Option<&str>,
) -> Locale {
    if parse_opt(explicit) is Some {
        parse_opt(explicit).unwrap()
    } else if parse_opt(lime_locale) is Some {
        parse_opt(lime_locale).unwrap()
    } else if parse_opt(lc_all) is Some {
        parse_opt(lc_all).unwrap()
    } else if parse_opt(lang) is Some {
        parse_opt(lang).unwrap()
    } else {
        Locale::EnUs
    }
}

fn normalize_tag_chars(value: &str) -> (n: Vec<char>)
    ensures
        n@ == normalize_tag(value@),
{
    let t = trimmed(value);
    let tv = chars_of(t.as_str());
    let mut n: Vec<char> = Vec::new();
    let mut i: usize = 0;
    while i < tv.len()
        invariant
            i <= tv.len(),
            tv@ == trim(value@),
            n@ == tv@.take(i as int).map_values(|c: char| tag_char(c)),
        decreases tv.len() - i,
    {
        let c = tv[i];
        let d = if c == '_' {
            '-'
        } else if 'A' <= c && c <= 'Z' {
            ((c as u32 + 32) as u8) as char
        } else {
            c
        };
        n.push(d);
        assert(tv@.take(i + 1).map_values(|c: char| tag_char(c)) =~= tv@.take(i as int).map_values(
            |c: char| tag_char(c),
        ).push(tag_char(c)));
        i = i + 1;
    }
    assert(tv@.take(tv.len() as int) =~= tv@);
    n
}

impl Locale {
    /// The locale a tag names, if any (`zh_CN`, `zh-Hant-TW`, `ja`, `ko-KR`,
    /// `en-GB`, ...).
    pub fn parse(value: &str) -> (r: Option<Locale>)
        ensures
            r == parse_tag(value@),
    {
        let n = normalize_tag_chars(value);
        if n.len() == 0 {
            return None;
        }
        if matches_str(&n, "zh-tw") || starts_with_str(&n, "zh-hant") || starts_with_str(
            &n,
            "zh-tw-",
        ) {
            return Some(Locale::ZhTw);
        }
        if matches_str(&n, "zh") || matches_str(&n, "zh-cn") || starts_with_str(&n, "zh-hans")
            || starts_with_str(&n, "zh-cn-") {
            return Some(Locale::ZhCn);
        }
        if matches_str(&n, "ja") || starts_with_str(&n, "ja-") {
            return Some(Locale::JaJp);
        }
        if matches_str(&n, "ko") || starts_with_str(&n, "ko-") {
            return Some(Locale::KoKr);
        }
        if matches_str(&n, "en") || starts_with_str(&n, "en-") {
            return Some(Locale::EnUs);
        }
        None
    }

    fn parse_opt(o: Option<&str>) -> (r: Option<Locale>)
        ensures
            r == parse_opt(o),
    {
        match o {
            Some(s) => Locale::parse(s),
            None => None,
        }
    }

    /// The locale to use: the explicit choice, else `LIME_LOCALE`, else
    /// `LC_ALL`, else `LANG`, the first that names a locale; English when
    /// none does. The caller reads the environment.
    pub fn resolve(
        explicit: Option<&str>,
        lime_locale: Option<&str>,
        lc_all: Option<&str>,
        lang: Option<&str>,
    ) -> (r: Locale)
        ensures
            r == resolve_spec(explicit, lime_locale, lc_all, lang),
    {
        if let Some(l) = Locale::parse_opt(explicit) {
            return l;
        }
        if let Some(l) = Locale::parse_opt(lime_locale) {
            return l;
        }
        if let Some(l) = Locale::parse_opt(lc_all) {
            return l;
        }
        if let Some(l) = Locale::parse_opt(lang) {
            return l;
        }
        Locale::EnUs
    }

    /// The BCP 47 tag of the locale.
    pub open spec fn tag_text(self) -> Seq<char> {
        match self {
            Locale::ZhCn => "zh-CN"@,
            Locale::ZhTw => "zh-TW"@,
            Locale::EnUs => "en-US"@,
            Locale::JaJp => "ja-JP"@,
            Locale::KoKr => "ko-KR"@,
        }
    }

    /// The BCP 47 tag of the locale.
    pub fn tag(self) -> (r: &'static str)
        ensures
            r@ == self.tag_text(),
    {
        match self {
            Locale::ZhCn => "zh-CN",
            Locale::ZhTw => "zh-TW",
            Locale::EnUs => "en-US",
            Locale::JaJp => "ja-JP",
            Locale::KoKr => "ko-KR",
        }
    }

    /// Every locale's own tag parses back to that locale.
    pub proof fn lemma_tag_round_trip(self)
        ensures
            parse_tag(self.tag_text()) == Some(self),
    {
        reveal_strlit("zh-CN");
        reveal_strlit("zh-TW");
        reveal_strlit("en-US");
        reveal_strlit("ja-JP");
        reveal_strlit("ko-KR");
        reveal_strlit("zh-tw");
        reveal_strlit("zh-hant");
        reveal_strlit("zh-tw-");
        reveal_strlit("zh");
        reveal_strlit("zh-cn");
        reveal_strlit("zh-hans");
        reveal_strlit("zh-cn-");
        reveal_strlit("ja");
        reveal_strlit("ja-");
        reveal_strlit("ko");
        reveal_strlit("ko-");
        reveal_strlit("en");
        reveal_strlit("en-");
        let t = self.tag_text();
        assert(t.len() == 5);
        assert(!crate::text::is_ws(t[0]) && !crate::text::is_ws(t[4]));
        assert(crate::text::lead_ws(t) == 0);
        assert(trim_start(t) =~= t);
        assert(t.last() == t[4]);
        assert(crate::text::trail_ws(t) == 0);
        assert(trim(t) =~= t);
        let n = normalize_tag(t);
        assert(n.len() == 5);
        assert(n[0] == tag_char(t[0]) && n[1] == tag_char(t[1]) && n[2] == tag_char(t[2]));
        assert(n[3] == tag_char(t[3]) && n[4] == tag_char(t[4]));
        let zt = "zh-tw"@;
        let zh = "zh"@;
        let zc = "zh-cn"@;
        assert(!is_prefix("zh-hant"@, n) && !is_prefix("zh-tw-"@, n));
        assert(!is_prefix("zh-hans"@, n) && !is_prefix("zh-cn-"@, n));
        assert(n != zh && n != "ja"@ && n != "ko"@);
        match self {
            Locale::ZhCn => {
                assert(n =~= zc);
            },
            Locale::ZhTw => {
                assert(n =~= zt);
            },
            Locale::EnUs => {
                assert(n[0] != zt[0] && n[0] != zc[0]);
                assert(n.take(3) =~= "en-"@);
                assert(n.take(3)[0] != "ja-"@[0] && n.take(3)[0] != "ko-"@[0]);
                assert(n.take(3) != "ja-"@ && n.take(3) != "ko-"@);
            },
            Locale::JaJp => {
                assert(n[0] != zt[0] && n[0] != zc[0]);
                assert(n.take(3) =~= "ja-"@);
            },
            Locale::KoKr => {
                assert(n[0] != zt[0] && n[0] != zc[0]);
                assert(n.take(3) =~= "ko-"@);
                assert(n.take(3)[0] != "ja-"@[0]);
                assert(n.take(3) != "ja-"@);
            },
        }
    }

    /// Label of the model field.
    pub open spec fn model_label_text(self) -> Seq<char> {
        match self {
            Locale::ZhCn | Locale::ZhTw => "模型"@,
            Locale::EnUs => "model"@,
            Locale::JaJp => "モデル"@,
            Locale::KoKr => "모델"@,
        }
    }

    /// Label of the model field.
    pub fn model_label(self) -> (r: &'static str)
        ensures
            r@ == self.model_label_text(),
    {
        match self {
            Locale::ZhCn | Locale::ZhTw => "模型",
            Locale::EnUs => "model",
            Locale::JaJp => "モデル",
            Locale::KoKr => "모델",
        }
    }

    /// Label of the reasoning effort field.
    pub open spec fn effort_label_text(self) -> Seq<char> {
        match self {
            Locale::ZhCn | Locale::ZhTw => "推理"@,
            Locale::EnUs => "effort"@,
            Locale::JaJp => "推論"@,
            Locale::KoKr => "추론"@,
        }
    }

    /// Label of the reasoning effort field.
    pub fn effort_label(self) -> (r: &'static str)
        ensures
            r@ == self.effort_label_text(),
    {
        match self {
            Locale::ZhCn | Locale::ZhTw => "推理",
            Locale::EnUs => "effort",
            Locale::JaJp => "推論",
            Locale::KoKr => "추론",
        }
    }

    /// Label of the permissions field.
    pub open spec fn permissions_label_text(self) -> Seq<char> {
        match self {
            Locale::ZhCn => "权限"@,
            Locale::ZhTw => "權限"@,
            Locale::EnUs => "permissions"@,
            Locale::JaJp => "権限"@,
            Locale::KoKr => "권한"@,
        }
    }

    /// Label of the permissions field.
    pub fn permissions_label(self) -> (r: &'static str)
        ensures
            r@ == self.permissions_label_text(),
    {
        match self {
            Locale::ZhCn => "权限",
            Locale::ZhTw => "權限",
            Locale::EnUs => "permissions",
            Locale::JaJp => "権限",
            Locale::KoKr => "권한",
        }
    }

    /// Label of the idle, ready state.
    pub open spec fn ready_label_text(self) -> Seq<char> {
        match self {
            Locale::ZhCn => "就绪"@,
            Locale::ZhTw => "就緒"@,
            Locale::EnUs => "ready"@,
            Locale::JaJp => "準備完了"@,
            Locale::KoKr => "준비됨"@,
        }
    }

    /// Label of the idle, ready state.
    pub fn ready_label(self) -> (r: &'static str)
        ensures
            r@ == self.ready_label_text(),
    {
        match self {
            Locale::ZhCn => "就绪",
            Locale::ZhTw => "就緒",
            Locale::EnUs => "ready",
            Locale::JaJp => "準備完了",
            Locale::KoKr => "준비됨",
        }
    }

    /// Label shown while a turn is running.
    pub open spec fn working_label_text(self) -> Seq<char> {
        match self {
            Locale::ZhCn => "处理中"@,
            Locale::ZhTw => "處理中"@,
            Locale::EnUs => "Working"@,
            Locale::JaJp => "処理中"@,
            Locale::KoKr => "작업 중"@,
        }
    }

    /// Label shown while a turn is running.
    pub fn working_label(self) -> (r: &'static str)
        ensures
            r@ == self.working_label_text(),
    {
        match self {
            Locale::ZhCn => "处理中",
            Locale::ZhTw => "處理中",
            Locale::EnUs => "Working",
            Locale::JaJp => "処理中",
            Locale::KoKr => "작업 중",
        }
    }

    /// Hint naming the key that interrupts a turn.
    pub open spec fn interrupt_hint_text(self) -> Seq<char> {
        match self {
            Locale::ZhCn => "Esc 中断"@,
            Locale::ZhTw => "Esc 中斷"@,
            Locale::EnUs => "esc to interrupt"@,
            Locale::JaJp => "Esc で中断"@,
            Locale::KoKr => "Esc로 중단"@,
        }
    }

    /// Hint naming the key that interrupts a turn.
    pub fn interrupt_hint(self) -> (r: &'static str)
        ensures
            r@ == self.interrupt_hint_text(),
    {
        match self {
            Locale::ZhCn => "Esc 中断",
            Locale::ZhTw => "Esc 中斷",
            Locale::EnUs => "esc to interrupt",
            Locale::JaJp => "Esc で中断",
            Locale::KoKr => "Esc로 중단",
        }
    }

    /// Label of a turn.
    pub open spec fn turn_label_text(self) -> Seq<char> {
        match self {
            Locale::ZhCn | Locale::ZhTw => "回合"@,
            Locale::EnUs => "turn"@,
            Locale::JaJp => "ターン"@,
            Locale::KoKr => "턴"@,
        }
    }

    /// Label of a turn.
    pub fn turn_label(self) -> (r: &'static str)
        ensures
            r@ == self.turn_label_text(),
    {
        match self {
            Locale::ZhCn | Locale::ZhTw => "回合",
            Locale::EnUs => "turn",
            Locale::JaJp => "ターン",
            Locale::KoKr => "턴",
        }
    }

    /// Prompt of the reverse history search.
    pub open spec fn history_search_label_text(self) -> Seq<char> {
        match self {
            Locale::ZhCn => "反向搜索："@,
            Locale::ZhTw => "反向搜尋："@,
            Locale::EnUs => "reverse-i-search: "@,
            Locale::JaJp => "履歴逆検索: "@,
            Locale::KoKr => "기록 역검색: "@,
        }
    }

    /// Prompt of the reverse history search.
    pub fn history_search_label(self) -> (r: &'static str)
        ensures
            r@ == self.history_search_label_text(),
    {
        match self {
            Locale::ZhCn => "反向搜索：",
            Locale::ZhTw => "反向搜尋：",
            Locale::EnUs => "reverse-i-search: ",
            Locale::JaJp => "履歴逆検索: ",
            Locale::KoKr => "기록 역검색: ",
        }
    }

    /// Placeholder while file search results load.
    pub open spec fn file_search_loading_text(self) -> Seq<char> {
        match self {
            Locale::ZhCn => "正在搜索..."@,
            Locale::ZhTw => "正在搜尋..."@,
            Locale::EnUs => "loading..."@,
            Locale::JaJp => "検索中..."@,
            Locale::KoKr => "검색 중..."@,
        }
    }

    /// Placeholder while file search results load.
    pub fn file_search_loading(self) -> (r: &'static str)
        ensures
            r@ == self.file_search_loading_text(),
    {
        match self {
            Locale::ZhCn => "正在搜索...",
            Locale::ZhTw => "正在搜尋...",
            Locale::EnUs => "loading...",
            Locale::JaJp => "検索中...",
            Locale::KoKr => "검색 중...",
        }
    }

    /// Placeholder when file search finds nothing.
    pub open spec fn file_search_no_matches_text(self) -> Seq<char> {
        match self {
            Locale::ZhCn => "没有匹配项"@,
            Locale::ZhTw => "沒有符合項目"@,
            Locale::EnUs => "no matches"@,
            Locale::JaJp => "一致する項目がありません"@,
            Locale::KoKr => "일치하는 항목이 없습니다"@,
        }
    }

    /// Placeholder when file search finds nothing.
    pub fn file_search_no_matches(self) -> (r: &'static str)
        ensures
            r@ == self.file_search_no_matches_text(),
    {
        match self {
            Locale::ZhCn => "没有匹配项",
            Locale::ZhTw => "沒有符合項目",
            Locale::EnUs => "no matches",
            Locale::JaJp => "一致する項目がありません",
            Locale::KoKr => "일치하는 항목이 없습니다",
        }
    }

    /// Placeholder when no skill matches.
    pub open spec fn skill_popup_no_matches_text(self) -> Seq<char> {
        match self {
            Locale::ZhCn => "没有匹配的技能"@,
            Locale::ZhTw => "沒有符合的技能"@,
            Locale::EnUs => "no matching skills"@,
            Locale::JaJp => "一致するスキルがありません"@,
            Locale::KoKr => "일치하는 기술이 없습니다"@,
        }
    }

    /// Placeholder when no skill matches.
    pub fn skill_popup_no_matches(self) -> (r: &'static str)
        ensures
            r@ == self.skill_popup_no_matches_text(),
    {
        match self {
            Locale::ZhCn => "没有匹配的技能",
            Locale::ZhTw => "沒有符合的技能",
            Locale::EnUs => "no matching skills",
            Locale::JaJp => "一致するスキルがありません",
            Locale::KoKr => "일치하는 기술이 없습니다",
        }
    }

    /// Message announcing that Vim editing was switched on or off.
    pub open spec fn vim_mode_message_text(self, enabled: bool) -> Seq<char> {
        match (self, enabled) {
            (Locale::ZhCn, true) => "已启用 Vim 编辑模式"@,
            (Locale::ZhCn, false) => "已关闭 Vim 编辑模式"@,
            (Locale::ZhTw, true) => "已啟用 Vim 編輯模式"@,
            (Locale::ZhTw, false) => "已關閉 Vim 編輯模式"@,
            (Locale::EnUs, true) => "Vim composer mode enabled"@,
            (Locale::EnUs, false) => "Vim composer mode disabled"@,
            (Locale::JaJp, true) => "Vim 編集モードを有効にしました"@,
            (Locale::JaJp, false) => "Vim 編集モードを無効にしました"@,
            (Locale::KoKr, true) => "Vim 편집 모드를 켰습니다"@,
            (Locale::KoKr, false) => "Vim 편집 모드를 껐습니다"@,
        }
    }

    /// Message announcing that Vim editing was switched on or off.
    pub fn vim_mode_message(self, enabled: bool) -> (r: &'static str)
        ensures
            r@ == self.vim_mode_message_text(enabled),
    {
        match (self, enabled) {
            (Locale::ZhCn, true) => "已启用 Vim 编辑模式",
            (Locale::ZhCn, false) => "已关闭 Vim 编辑模式",
            (Locale::ZhTw, true) => "已啟用 Vim 編輯模式",
            (Locale::ZhTw, false) => "已關閉 Vim 編輯模式",
            (Locale::EnUs, true) => "Vim composer mode enabled",
            (Locale::EnUs, false) => "Vim composer mode disabled",
            (Locale::JaJp, true) => "Vim 編集モードを有効にしました",
            (Locale::JaJp, false) => "Vim 編集モードを無効にしました",
            (Locale::KoKr, true) => "Vim 편집 모드를 켰습니다",
            (Locale::KoKr, false) => "Vim 편집 모드를 껐습니다",
        }
    }

    /// One-line description of a slash command.
    pub open spec fn slash_command_description_text(self, command: SlashCommand) -> Seq<char> {
        match (self, command) {
            (Locale::ZhCn, SlashCommand::Model) => "选择模型"@,
            (Locale::ZhTw, SlashCommand::Model) => "選擇模型"@,
            (Locale::EnUs, SlashCommand::Model) => "choose a model"@,
            (Locale::JaJp, SlashCommand::Model) => "モデルを選択"@,
            (Locale::KoKr, SlashCommand::Model) => "모델 선택"@,
            (Locale::ZhCn, SlashCommand::Plan) => "切换到计划模式"@,
            (Locale::ZhTw, SlashCommand::Plan) => "切換至計畫模式"@,
            (Locale::EnUs, SlashCommand::Plan) => "switch to Plan mode"@,
            (Locale::JaJp, SlashCommand::Plan) => "計画モードに切り替え"@,
            (Locale::KoKr, SlashCommand::Plan) => "계획 모드로 전환"@,
            (Locale::ZhCn, SlashCommand::Effort) => "设置推理强度"@,
            (Locale::ZhTw, SlashCommand::Effort) => "設定推理強度"@,
            (Locale::EnUs, SlashCommand::Effort) => "set the reasoning effort"@,
            (Locale::JaJp, SlashCommand::Effort) => "推論強度を設定"@,
            (Locale::KoKr, SlashCommand::Effort) => "추론 강도 설정"@,
            (Locale::ZhCn, SlashCommand::Permissions) => "设置权限配置"@,
            (Locale::ZhTw, SlashCommand::Permissions) => "設定權限設定檔"@,
            (Locale::EnUs, SlashCommand::Permissions) => "set the permission profile"@,
            (Locale::JaJp, SlashCommand::Permissions) => "権限プロファイルを設定"@,
            (Locale::KoKr, SlashCommand::Permissions) => "권한 프로필 설정"@,
            (Locale::ZhCn, SlashCommand::Status) => "查看当前会话状态"@,
            (Locale::ZhTw, SlashCommand::Status) => "檢視目前工作階段狀態"@,
            (Locale::EnUs, SlashCommand::Status) => "show the current session status"@,
            (Locale::JaJp, SlashCommand::Status) => "現在のセッション状態を表示"@,
            (Locale::KoKr, SlashCommand::Status) => "현재 세션 상태 보기"@,
            (Locale::ZhCn, SlashCommand::Copy) => "复制最后一条回复"@,
            (Locale::ZhTw, SlashCommand::Copy) => "複製最後一則回覆"@,
            (Locale::EnUs, SlashCommand::Copy) => "copy the last response"@,
            (Locale::JaJp, SlashCommand::Copy) => "最後の応答をコピー"@,
            (Locale::KoKr, SlashCommand::Copy) => "마지막 응답 복사"@,
            (Locale::ZhCn, SlashCommand::Export) => "导出完整对话"@,
            (Locale::ZhTw, SlashCommand::Export) => "匯出完整對話"@,
            (Locale::EnUs, SlashCommand::Export) => "export the complete conversation"@,
            (Locale::JaJp, SlashCommand::Export) => "完全な会話をエクスポート"@,
            (Locale::KoKr, SlashCommand::Export) => "전체 대화 내보내기"@,
            (Locale::ZhCn, SlashCommand::Agents) => "查看和切换所有活跃 Agent 会话"@,
            (Locale::ZhTw, SlashCommand::Agents) => "檢視和切換所有活躍 Agent 工作階段"@,
            (Locale::EnUs, SlashCommand::Agents) => "view and switch between all active agent sessions"@,
            (Locale::JaJp, SlashCommand::Agents) => "すべてのアクティブな Agent セッションを表示して切り替え"@,
            (Locale::KoKr, SlashCommand::Agents) => "모든 활성 에이전트 세션 보기 및 전환"@,
            (Locale::ZhCn, SlashCommand::MultiAgents) => "切换子 Agent 会话"@,
            (Locale::ZhTw, SlashCommand::MultiAgents) => "切換子 Agent 工作階段"@,
            (Locale::EnUs, SlashCommand::MultiAgents) => "switch between sub-agent threads"@,
            (Locale::JaJp, SlashCommand::MultiAgents) => "サブ Agent スレッドを切り替え"@,
            (Locale::KoKr, SlashCommand::MultiAgents) => "하위 에이전트 스레드 전환"@,
            (Locale::ZhCn, SlashCommand::Resume) => "恢复之前的会话"@,
            (Locale::ZhTw, SlashCommand::Resume) => "恢復先前的工作階段"@,
            (Locale::EnUs, SlashCommand::Resume) => "resume a previous session"@,
            (Locale::JaJp, SlashCommand::Resume) => "以前のセッションを再開"@,
            (Locale::KoKr, SlashCommand::Resume) => "이전 세션 재개"@,
            (Locale::ZhCn, SlashCommand::Vim) => "切换 Vim 编辑模式"@,
            (Locale::ZhTw, SlashCommand::Vim) => "切換 Vim 編輯模式"@,
            (Locale::EnUs, SlashCommand::Vim) => "toggle Vim composer mode"@,
            (Locale::JaJp, SlashCommand::Vim) => "Vim 編集モードを切り替え"@,
            (Locale::KoKr, SlashCommand::Vim) => "Vim 편집 모드 전환"@,
            (Locale::ZhCn, SlashCommand::Pwd) => "显示当前工作目录"@,
            (Locale::ZhTw, SlashCommand::Pwd) => "顯示目前工作目錄"@,
            (Locale::EnUs, SlashCommand::Pwd) => "show the current working directory"@,
            (Locale::JaJp, SlashCommand::Pwd) => "現在の作業ディレクトリを表示"@,
            (Locale::KoKr, SlashCommand::Pwd) => "현재 작업 디렉터리 표시"@,
            (Locale::ZhCn, SlashCommand::Mcp) => "列出已配置的 MCP 服务器与工具"@,
            (Locale::ZhTw, SlashCommand::Mcp) => "列出已設定的 MCP 伺服器與工具"@,
            (Locale::EnUs, SlashCommand::Mcp) => "list configured MCP servers and tools"@,
            (Locale::JaJp, SlashCommand::Mcp) => "設定済みの MCP サーバーとツールを一覧表示"@,
            (Locale::KoKr, SlashCommand::Mcp) => "구성된 MCP 서버와 도구 나열"@,
        }
    }

    /// One-line description of a slash command.
    pub fn slash_command_description(self, command: SlashCommand) -> (r: &'static str)
        ensures
            r@ == self.slash_command_description_text(command),
    {
        match (self, command) {
            (Locale::ZhCn, SlashCommand::Model) => "选择模型",
            (Locale::ZhTw, SlashCommand::Model) => "選擇模型",
            (Locale::EnUs, SlashCommand::Model) => "choose a model",
            (Locale::JaJp, SlashCommand::Model) => "モデルを選択",
            (Locale::KoKr, SlashCommand::Model) => "모델 선택",
            (Locale::ZhCn, SlashCommand::Plan) => "切换到计划模式",
            (Locale::ZhTw, SlashCommand::Plan) => "切換至計畫模式",
            (Locale::EnUs, SlashCommand::Plan) => "switch to Plan mode",
            (Locale::JaJp, SlashCommand::Plan) => "計画モードに切り替え",
            (Locale::KoKr, SlashCommand::Plan) => "계획 모드로 전환",
            (Locale::ZhCn, SlashCommand::Effort) => "设置推理强度",
            (Locale::ZhTw, SlashCommand::Effort) => "設定推理強度",
            (Locale::EnUs, SlashCommand::Effort) => "set the reasoning effort",
            (Locale::JaJp, SlashCommand::Effort) => "推論強度を設定",
            (Locale::KoKr, SlashCommand::Effort) => "추론 강도 설정",
            (Locale::ZhCn, SlashCommand::Permissions) => "设置权限配置",
            (Locale::ZhTw, SlashCommand::Permissions) => "設定權限設定檔",
            (Locale::EnUs, SlashCommand::Permissions) => "set the permission profile",
            (Locale::JaJp, SlashCommand::Permissions) => "権限プロファイルを設定",
            (Locale::KoKr, SlashCommand::Permissions) => "권한 프로필 설정",
            (Locale::ZhCn, SlashCommand::Status) => "查看当前会话状态",
            (Locale::ZhTw, SlashCommand::Status) => "檢視目前工作階段狀態",
            (Locale::EnUs, SlashCommand::Status) => "show the current session status",
            (Locale::JaJp, SlashCommand::Status) => "現在のセッション状態を表示",
            (Locale::KoKr, SlashCommand::Status) => "현재 세션 상태 보기",
            (Locale::ZhCn, SlashCommand::Copy) => "复制最后一条回复",
            (Locale::ZhTw, SlashCommand::Copy) => "複製最後一則回覆",
            (Locale::EnUs, SlashCommand::Copy) => "copy the last response",
            (Locale::JaJp, SlashCommand::Copy) => "最後の応答をコピー",
            (Locale::KoKr, SlashCommand::Copy) => "마지막 응답 복사",
            (Locale::ZhCn, SlashCommand::Export) => "导出完整对话",
            (Locale::ZhTw, SlashCommand::Export) => "匯出完整對話",
            (Locale::EnUs, SlashCommand::Export) => "export the complete conversation",
            (Locale::JaJp, SlashCommand::Export) => "完全な会話をエクスポート",
            (Locale::KoKr, SlashCommand::Export) => "전체 대화 내보내기",
            (Locale::ZhCn, SlashCommand::Agents) => "查看和切换所有活跃 Agent 会话",
            (Locale::ZhTw, SlashCommand::Agents) => "檢視和切換所有活躍 Agent 工作階段",
            (Locale::EnUs, SlashCommand::Agents) => "view and switch between all active agent sessions",
            (Locale::JaJp, SlashCommand::Agents) => "すべてのアクティブな Agent セッションを表示して切り替え",
            (Locale::KoKr, SlashCommand::Agents) => "모든 활성 에이전트 세션 보기 및 전환",
            (Locale::ZhCn, SlashCommand::MultiAgents) => "切换子 Agent 会话",
            (Locale::ZhTw, SlashCommand::MultiAgents) => "切換子 Agent 工作階段",
            (Locale::EnUs, SlashCommand::MultiAgents) => "switch between sub-agent threads",
            (Locale::JaJp, SlashCommand::MultiAgents) => "サブ Agent スレッドを切り替え",
            (Locale::KoKr, SlashCommand::MultiAgents) => "하위 에이전트 스레드 전환",
            (Locale::ZhCn, SlashCommand::Resume) => "恢复之前的会话",
            (Locale::ZhTw, SlashCommand::Resume) => "恢復先前的工作階段",
            (Locale::EnUs, SlashCommand::Resume) => "resume a previous session",
            (Locale::JaJp, SlashCommand::Resume) => "以前のセッションを再開",
            (Locale::KoKr, SlashCommand::Resume) => "이전 세션 재개",
            (Locale::ZhCn, SlashCommand::Vim) => "切换 Vim 编辑模式",
            (Locale::ZhTw, SlashCommand::Vim) => "切換 Vim 編輯模式",
            (Locale::EnUs, SlashCommand::Vim) => "toggle Vim composer mode",
            (Locale::JaJp, SlashCommand::Vim) => "Vim 編集モードを切り替え",
            (Locale::KoKr, SlashCommand::Vim) => "Vim 편집 모드 전환",
            (Locale::ZhCn, SlashCommand::Pwd) => "显示当前工作目录",
            (Locale::ZhTw, SlashCommand::Pwd) => "顯示目前工作目錄",
            (Locale::EnUs, SlashCommand::Pwd) => "show the current working directory",
            (Locale::JaJp, SlashCommand::Pwd) => "現在の作業ディレクトリを表示",
            (Locale::KoKr, SlashCommand::Pwd) => "현재 작업 디렉터리 표시",
            (Locale::ZhCn, SlashCommand::Mcp) => "列出已配置的 MCP 服务器与工具",
            (Locale::ZhTw, SlashCommand::Mcp) => "列出已設定的 MCP 伺服器與工具",
            (Locale::EnUs, SlashCommand::Mcp) => "list configured MCP servers and tools",
            (Locale::JaJp, SlashCommand::Mcp) => "設定済みの MCP サーバーとツールを一覧表示",
            (Locale::KoKr, SlashCommand::Mcp) => "구성된 MCP 서버와 도구 나열",
        }
    }

    /// Usage line of `/pwd`.
    pub open spec fn pwd_usage_text(self) -> Seq<char> {
        match self {
            Locale::ZhCn => "用法：/pwd"@,
            Locale::ZhTw => "用法：/pwd"@,
            Locale::EnUs => "Usage: /pwd"@,
            Locale::JaJp => "使い方：/pwd"@,
            Locale::KoKr => "사용법: /pwd"@,
        }
    }

    /// Usage line of `/pwd`.
    pub fn pwd_usage(self) -> (r: &'static str)
        ensures
            r@ == self.pwd_usage_text(),
    {
        match self {
            Locale::ZhCn => "用法：/pwd",
            Locale::ZhTw => "用法：/pwd",
            Locale::EnUs => "Usage: /pwd",
            Locale::JaJp => "使い方：/pwd",
            Locale::KoKr => "사용법: /pwd",
        }
    }

    /// Title of the status overlay.
    pub open spec fn status_title_text(self) -> Seq<char> {
        match self {
            Locale::ZhCn => "状态"@,
            Locale::ZhTw => "狀態"@,
            Locale::EnUs => "STATUS"@,
            Locale::JaJp => "状態"@,
            Locale::KoKr => "상태"@,
        }
    }

    /// Title of the status overlay.
    pub fn status_title(self) -> (r: &'static str)
        ensures
            r@ == self.status_title_text(),
    {
        match self {
            Locale::ZhCn => "状态",
            Locale::ZhTw => "狀態",
            Locale::EnUs => "STATUS",
            Locale::JaJp => "状態",
            Locale::KoKr => "상태",
        }
    }

    /// Title of the transcript overlay.
    pub open spec fn transcript_title_text(self) -> Seq<char> {
        match self {
            Locale::ZhCn => "对话记录"@,
            Locale::ZhTw => "對話記錄"@,
            Locale::EnUs => "T R A N S C R I P T"@,
            Locale::JaJp => "会話履歴"@,
            Locale::KoKr => "대화 기록"@,
        }
    }

    /// Title of the transcript overlay.
    pub fn transcript_title(self) -> (r: &'static str)
        ensures
            r@ == self.transcript_title_text(),
    {
        match self {
            Locale::ZhCn => "对话记录",
            Locale::ZhTw => "對話記錄",
            Locale::EnUs => "T R A N S C R I P T",
            Locale::JaJp => "会話履歴",
            Locale::KoKr => "대화 기록",
        }
    }

    /// Title of the export picker.
    pub open spec fn export_title_text(self) -> Seq<char> {
        match self {
            Locale::ZhCn => "导出对话"@,
            Locale::ZhTw => "匯出對話"@,
            Locale::EnUs => "Export conversation"@,
            Locale::JaJp => "会話をエクスポート"@,
            Locale::KoKr => "대화 내보내기"@,
        }
    }

    /// Title of the export picker.
    pub fn export_title(self) -> (r: &'static str)
        ensures
            r@ == self.export_title_text(),
    {
        match self {
            Locale::ZhCn => "导出对话",
            Locale::ZhTw => "匯出對話",
            Locale::EnUs => "Export conversation",
            Locale::JaJp => "会話をエクスポート",
            Locale::KoKr => "대화 내보내기",
        }
    }

    /// Subtitle of the export picker.
    pub open spec fn export_subtitle_text(self) -> Seq<char> {
        match self {
            Locale::ZhCn => "将完整对话保存为 Markdown"@,
            Locale::ZhTw => "將完整對話儲存為 Markdown"@,
            Locale::EnUs => "Save the complete conversation as Markdown"@,
            Locale::JaJp => "完全な会話を Markdown として保存"@,
            Locale::KoKr => "전체 대화를 Markdown으로 저장"@,
        }
    }

    /// Subtitle of the export picker.
    pub fn export_subtitle(self) -> (r: &'static str)
        ensures
            r@ == self.export_subtitle_text(),
    {
        match self {
            Locale::ZhCn => "将完整对话保存为 Markdown",
            Locale::ZhTw => "將完整對話儲存為 Markdown",
            Locale::EnUs => "Save the complete conversation as Markdown",
            Locale::JaJp => "完全な会話を Markdown として保存",
            Locale::KoKr => "전체 대화를 Markdown으로 저장",
        }
    }

    /// Label of the copy-to-clipboard export choice.
    pub open spec fn export_copy_label_text(self) -> Seq<char> {
        match self {
            Locale::ZhCn => "复制到剪贴板"@,
            Locale::ZhTw => "複製到剪貼簿"@,
            Locale::EnUs => "Copy to clipboard"@,
            Locale::JaJp => "クリップボードにコピー"@,
            Locale::KoKr => "클립보드에 복사"@,
        }
    }

    /// Label of the copy-to-clipboard export choice.
    pub fn export_copy_label(self) -> (r: &'static str)
        ensures
            r@ == self.export_copy_label_text(),
    {
        match self {
            Locale::ZhCn => "复制到剪贴板",
            Locale::ZhTw => "複製到剪貼簿",
            Locale::EnUs => "Copy to clipboard",
            Locale::JaJp => "クリップボードにコピー",
            Locale::KoKr => "클립보드에 복사",
        }
    }

    /// Description of the copy-to-clipboard export choice.
    pub open spec fn export_copy_description_text(self) -> Seq<char> {
        match self {
            Locale::ZhCn => "复制完整 Markdown 对话记录"@,
            Locale::ZhTw => "複製完整 Markdown 對話記錄"@,
            Locale::EnUs => "Copy the complete Markdown transcript"@,
            Locale::JaJp => "完全な Markdown 会話履歴をコピー"@,
            Locale::KoKr => "전체 Markdown 대화 기록 복사"@,
        }
    }

    /// Description of the copy-to-clipboard export choice.
    pub fn export_copy_description(self) -> (r: &'static str)
        ensures
            r@ == self.export_copy_description_text(),
    {
        match self {
            Locale::ZhCn => "复制完整 Markdown 对话记录",
            Locale::ZhTw => "複製完整 Markdown 對話記錄",
            Locale::EnUs => "Copy the complete Markdown transcript",
            Locale::JaJp => "完全な Markdown 会話履歴をコピー",
            Locale::KoKr => "전체 Markdown 대화 기록 복사",
        }
    }

    /// Label of the save-to-file export choice.
    pub open spec fn export_file_label_text(self) -> Seq<char> {
        match self {
            Locale::ZhCn => "保存到文件"@,
            Locale::ZhTw => "儲存到檔案"@,
            Locale::EnUs => "Save to file"@,
            Locale::JaJp => "ファイルに保存"@,
            Locale::KoKr => "파일에 저장"@,
        }
    }

    /// Label of the save-to-file export choice.
    pub fn export_file_label(self) -> (r: &'static str)
        ensures
            r@ == self.export_file_label_text(),
    {
        match self {
            Locale::ZhCn => "保存到文件",
            Locale::ZhTw => "儲存到檔案",
            Locale::EnUs => "Save to file",
            Locale::JaJp => "ファイルに保存",
            Locale::KoKr => "파일에 저장",
        }
    }

    /// Description of the save-to-file export choice.
    pub open spec fn export_file_description_text(self) -> Seq<char> {
        match self {
            Locale::ZhCn => "选择 Markdown 文件名"@,
            Locale::ZhTw => "選擇 Markdown 檔名"@,
            Locale::EnUs => "Choose a Markdown filename"@,
            Locale::JaJp => "Markdown ファイル名を選択"@,
            Locale::KoKr => "Markdown 파일 이름 선택"@,
        }
    }

    /// Description of the save-to-file export choice.
    pub fn export_file_description(self) -> (r: &'static str)
        ensures
            r@ == self.export_file_description_text(),
    {
        match self {
            Locale::ZhCn => "选择 Markdown 文件名",
            Locale::ZhTw => "選擇 Markdown 檔名",
            Locale::EnUs => "Choose a Markdown filename",
            Locale::JaJp => "Markdown ファイル名を選択",
            Locale::KoKr => "Markdown 파일 이름 선택",
        }
    }

    /// Key hint of the export picker.
    pub open spec fn export_picker_hint_text(self) -> Seq<char> {
        match self {
            Locale::ZhCn => "按 Enter 确认，按 Esc 返回"@,
            Locale::ZhTw => "按 Enter 確認，按 Esc 返回"@,
            Locale::EnUs => "Press enter to confirm or esc to go back"@,
            Locale::JaJp => "Enter で確定、Esc で戻る"@,
            Locale::KoKr => "Enter로 확인하거나 Esc로 돌아가기"@,
        }
    }

    /// Key hint of the export picker.
    pub fn export_picker_hint(self) -> (r: &'static str)
        ensures
            r@ == self.export_picker_hint_text(),
    {
        match self {
            Locale::ZhCn => "按 Enter 确认，按 Esc 返回",
            Locale::ZhTw => "按 Enter 確認，按 Esc 返回",
            Locale::EnUs => "Press enter to confirm or esc to go back",
            Locale::JaJp => "Enter で確定、Esc で戻る",
            Locale::KoKr => "Enter로 확인하거나 Esc로 돌아가기",
        }
    }

    /// Title of the export file-name prompt.
    pub open spec fn export_prompt_title_text(self) -> Seq<char> {
        match self {
            Locale::ZhCn => "保存对话"@,
            Locale::ZhTw => "儲存對話"@,
            Locale::EnUs => "Save conversation"@,
            Locale::JaJp => "会話を保存"@,
            Locale::KoKr => "대화 저장"@,
        }
    }

    /// Title of the export file-name prompt.
    pub fn export_prompt_title(self) -> (r: &'static str)
        ensures
            r@ == self.export_prompt_title_text(),
    {
        match self {
            Locale::ZhCn => "保存对话",
            Locale::ZhTw => "儲存對話",
            Locale::EnUs => "Save conversation",
            Locale::JaJp => "会話を保存",
            Locale::KoKr => "대화 저장",
        }
    }

    /// Key hint of the export file-name prompt.
    pub open spec fn export_prompt_hint_text(self) -> Seq<char> {
        match self {
            Locale::ZhCn => "输入文件名并按 Enter 确认，按 Esc 返回"@,
            Locale::ZhTw => "輸入檔名並按 Enter 確認，按 Esc 返回"@,
            Locale::EnUs => "Type a filename and press Enter to confirm, Esc to go back"@,
            Locale::JaJp => "ファイル名を入力して Enter で確定、Esc で戻る"@,
            Locale::KoKr => "파일 이름을 입력하고 Enter로 확인하거나 Esc로 돌아가기"@,
        }
    }

    /// Key hint of the export file-name prompt.
    pub fn export_prompt_hint(self) -> (r: &'static str)
        ensures
            r@ == self.export_prompt_hint_text(),
    {
        match self {
            Locale::ZhCn => "输入文件名并按 Enter 确认，按 Esc 返回",
            Locale::ZhTw => "輸入檔名並按 Enter 確認，按 Esc 返回",
            Locale::EnUs => "Type a filename and press Enter to confirm, Esc to go back",
            Locale::JaJp => "ファイル名を入力して Enter で確定、Esc で戻る",
            Locale::KoKr => "파일 이름을 입력하고 Enter로 확인하거나 Esc로 돌아가기",
        }
    }

    /// Label of the thread field.
    pub open spec fn thread_label_text(self) -> Seq<char> {
        match self {
            Locale::ZhCn => "会话"@,
            Locale::ZhTw => "工作階段"@,
            Locale::EnUs => "thread"@,
            Locale::JaJp => "スレッド"@,
            Locale::KoKr => "스레드"@,
        }
    }

    /// Label of the thread field.
    pub fn thread_label(self) -> (r: &'static str)
        ensures
            r@ == self.thread_label_text(),
    {
        match self {
            Locale::ZhCn => "会话",
            Locale::ZhTw => "工作階段",
            Locale::EnUs => "thread",
            Locale::JaJp => "スレッド",
            Locale::KoKr => "스레드",
        }
    }

    /// Label of the provider field.
    pub open spec fn provider_label_text(self) -> Seq<char> {
        match self {
            Locale::ZhCn | Locale::ZhTw => "Provider"@,
            Locale::EnUs => "provider"@,
            Locale::JaJp => "プロバイダー"@,
            Locale::KoKr => "프로바이더"@,
        }
    }

    /// Label of the provider field.
    pub fn provider_label(self) -> (r: &'static str)
        ensures
            r@ == self.provider_label_text(),
    {
        match self {
            Locale::ZhCn | Locale::ZhTw => "Provider",
            Locale::EnUs => "provider",
            Locale::JaJp => "プロバイダー",
            Locale::KoKr => "프로바이더",
        }
    }

    /// Label of the working-directory field.
    pub open spec fn cwd_label_text(self) -> Seq<char> {
        match self {
            Locale::ZhCn => "工作目录"@,
            Locale::ZhTw => "工作目錄"@,
            Locale::EnUs => "working directory"@,
            Locale::JaJp => "作業ディレクトリ"@,
            Locale::KoKr => "작업 디렉터리"@,
        }
    }

    /// Label of the working-directory field.
    pub fn cwd_label(self) -> (r: &'static str)
        ensures
            r@ == self.cwd_label_text(),
    {
        match self {
            Locale::ZhCn => "工作目录",
            Locale::ZhTw => "工作目錄",
            Locale::EnUs => "working directory",
            Locale::JaJp => "作業ディレクトリ",
            Locale::KoKr => "작업 디렉터리",
        }
    }

    /// Label of the state field.
    pub open spec fn state_label_text(self) -> Seq<char> {
        match self {
            Locale::ZhCn => "状态"@,
            Locale::ZhTw => "狀態"@,
            Locale::EnUs => "status"@,
            Locale::JaJp => "状態"@,
            Locale::KoKr => "상태"@,
        }
    }

    /// Label of the state field.
    pub fn state_label(self) -> (r: &'static str)
        ensures
            r@ == self.state_label_text(),
    {
        match self {
            Locale::ZhCn => "状态",
            Locale::ZhTw => "狀態",
            Locale::EnUs => "status",
            Locale::JaJp => "状態",
            Locale::KoKr => "상태",
        }
    }

    /// Text shown for a field that has no value.
    pub open spec fn not_set_label_text(self) -> Seq<char> {
        match self {
            Locale::ZhCn => "未设置"@,
            Locale::ZhTw => "未設定"@,
            Locale::EnUs => "not set"@,
            Locale::JaJp => "未設定"@,
            Locale::KoKr => "설정되지 않음"@,
        }
    }

    /// Text shown for a field that has no value.
    pub fn not_set_label(self) -> (r: &'static str)
        ensures
            r@ == self.not_set_label_text(),
    {
        match self {
            Locale::ZhCn => "未设置",
            Locale::ZhTw => "未設定",
            Locale::EnUs => "not set",
            Locale::JaJp => "未設定",
            Locale::KoKr => "설정되지 않음",
        }
    }

    /// Label of an attached image.
    pub open spec fn image_label_text(self) -> Seq<char> {
        match self {
            Locale::ZhCn => "图片"@,
            Locale::ZhTw => "圖片"@,
            Locale::EnUs => "image"@,
            Locale::JaJp => "画像"@,
            Locale::KoKr => "이미지"@,
        }
    }

    /// Label of an attached image.
    pub fn image_label(self) -> (r: &'static str)
        ensures
            r@ == self.image_label_text(),
    {
        match self {
            Locale::ZhCn => "图片",
            Locale::ZhTw => "圖片",
            Locale::EnUs => "image",
            Locale::JaJp => "画像",
            Locale::KoKr => "이미지",
        }
    }

    /// Hint for editing the last queued input.
    pub open spec fn edit_queued_input_hint_text(self) -> Seq<char> {
        match self {
            Locale::ZhCn => "Alt+Up 编辑最后一条排队输入"@,
            Locale::ZhTw => "Alt+Up 編輯最後一則排隊輸入"@,
            Locale::EnUs => "Alt+Up edit last queued input"@,
            Locale::JaJp => "Alt+Up 最後のキュー入力を編集"@,
            Locale::KoKr => "Alt+Up 마지막 대기 입력 편집"@,
        }
    }

    /// Hint for editing the last queued input.
    pub fn edit_queued_input_hint(self) -> (r: &'static str)
        ensures
            r@ == self.edit_queued_input_hint_text(),
    {
        match self {
            Locale::ZhCn => "Alt+Up 编辑最后一条排队输入",
            Locale::ZhTw => "Alt+Up 編輯最後一則排隊輸入",
            Locale::EnUs => "Alt+Up edit last queued input",
            Locale::JaJp => "Alt+Up 最後のキュー入力を編集",
            Locale::KoKr => "Alt+Up 마지막 대기 입력 편집",
        }
    }

    /// Key hints of the pager.
    pub open spec fn pager_footer_text(self) -> Seq<char> {
        match self {
            Locale::ZhCn => "上下滚动  PgUp/PgDn 翻页  Home/End 跳转  Esc/Q 关闭"@,
            Locale::ZhTw => "上下捲動  PgUp/PgDn 翻頁  Home/End 跳轉  Esc/Q 關閉"@,
            Locale::EnUs => "Up/Down scroll  PgUp/PgDn page  Home/End jump  Esc/Q close"@,
            Locale::JaJp => "上下スクロール  PgUp/PgDn ページ  Home/End 移動  Esc/Q 閉じる"@,
            Locale::KoKr => "위/아래 스크롤  PgUp/PgDn 페이지  Home/End 이동  Esc/Q 닫기"@,
        }
    }

    /// Key hints of the pager.
    pub fn pager_footer(self) -> (r: &'static str)
        ensures
            r@ == self.pager_footer_text(),
    {
        match self {
            Locale::ZhCn => "上下滚动  PgUp/PgDn 翻页  Home/End 跳转  Esc/Q 关闭",
            Locale::ZhTw => "上下捲動  PgUp/PgDn 翻頁  Home/End 跳轉  Esc/Q 關閉",
            Locale::EnUs => "Up/Down scroll  PgUp/PgDn page  Home/End jump  Esc/Q close",
            Locale::JaJp => "上下スクロール  PgUp/PgDn ページ  Home/End 移動  Esc/Q 閉じる",
            Locale::KoKr => "위/아래 스크롤  PgUp/PgDn 페이지  Home/End 이동  Esc/Q 닫기",
        }
    }

    /// Key hints of the transcript pager.
    pub open spec fn transcript_pager_footer_text(self) -> Seq<char> {
        match self {
            Locale::ZhCn => "上下滚动  PgUp/PgDn 翻页  Home/End 跳转  Ctrl+T/Esc/Q 关闭"@,
            Locale::ZhTw => "上下捲動  PgUp/PgDn 翻頁  Home/End 跳轉  Ctrl+T/Esc/Q 關閉"@,
            Locale::EnUs => "Up/Down scroll  PgUp/PgDn page  Home/End jump  Ctrl+T/Esc/Q close"@,
            Locale::JaJp => "上下スクロール  PgUp/PgDn ページ  Home/End 移動  Ctrl+T/Esc/Q 閉じる"@,
            Locale::KoKr => "위/아래 스크롤  PgUp/PgDn 페이지  Home/End 이동  Ctrl+T/Esc/Q 닫기"@,
        }
    }

    /// Key hints of the transcript pager.
    pub fn transcript_pager_footer(self) -> (r: &'static str)
        ensures
            r@ == self.transcript_pager_footer_text(),
    {
        match self {
            Locale::ZhCn => "上下滚动  PgUp/PgDn 翻页  Home/End 跳转  Ctrl+T/Esc/Q 关闭",
            Locale::ZhTw => "上下捲動  PgUp/PgDn 翻頁  Home/End 跳轉  Ctrl+T/Esc/Q 關閉",
            Locale::EnUs => "Up/Down scroll  PgUp/PgDn page  Home/End jump  Ctrl+T/Esc/Q close",
            Locale::JaJp => "上下スクロール  PgUp/PgDn ページ  Home/End 移動  Ctrl+T/Esc/Q 閉じる",
            Locale::KoKr => "위/아래 스크롤  PgUp/PgDn 페이지  Home/End 이동  Ctrl+T/Esc/Q 닫기",
        }
    }

    /// Placeholder of a text answer to an MCP request.
    pub open spec fn mcp_elicitation_text_placeholder_text(self, required: bool) -> Seq<char> {
        match (self, required) {
            (Locale::ZhCn, true) => "请输入答案"@,
            (Locale::ZhCn, false) => "请输入答案（可选）"@,
            (Locale::ZhTw, true) => "請輸入答案"@,
            (Locale::ZhTw, false) => "請輸入答案（選填）"@,
            (Locale::EnUs, true) => "Type an answer"@,
            (Locale::EnUs, false) => "Type an answer (optional)"@,
            (Locale::JaJp, true) => "回答を入力"@,
            (Locale::JaJp, false) => "回答を入力（任意）"@,
            (Locale::KoKr, true) => "답변 입력"@,
            (Locale::KoKr, false) => "답변 입력 (선택 사항)"@,
        }
    }

    /// Placeholder of a text answer to an MCP request.
    pub fn mcp_elicitation_text_placeholder(self, required: bool) -> (r: &'static str)
        ensures
            r@ == self.mcp_elicitation_text_placeholder_text(required),
    {
        match (self, required) {
            (Locale::ZhCn, true) => "请输入答案",
            (Locale::ZhCn, false) => "请输入答案（可选）",
            (Locale::ZhTw, true) => "請輸入答案",
            (Locale::ZhTw, false) => "請輸入答案（選填）",
            (Locale::EnUs, true) => "Type an answer",
            (Locale::EnUs, false) => "Type an answer (optional)",
            (Locale::JaJp, true) => "回答を入力",
            (Locale::JaJp, false) => "回答を入力（任意）",
            (Locale::KoKr, true) => "답변 입력",
            (Locale::KoKr, false) => "답변 입력 (선택 사항)",
        }
    }

    /// Label of a boolean answer to an MCP request.
    pub open spec fn mcp_elicitation_boolean_option_text(self, value: bool) -> Seq<char> {
        match (self, value) {
            (Locale::ZhCn, true) => "是"@,
            (Locale::ZhCn, false) => "否"@,
            (Locale::ZhTw, true) => "是"@,
            (Locale::ZhTw, false) => "否"@,
            (Locale::EnUs, true) => "True"@,
            (Locale::EnUs, false) => "False"@,
            (Locale::JaJp, true) => "はい"@,
            (Locale::JaJp, false) => "いいえ"@,
            (Locale::KoKr, true) => "예"@,
            (Locale::KoKr, false) => "아니요"@,
        }
    }

    /// Label of a boolean answer to an MCP request.
    pub fn mcp_elicitation_boolean_option(self, value: bool) -> (r: &'static str)
        ensures
            r@ == self.mcp_elicitation_boolean_option_text(value),
    {
        match (self, value) {
            (Locale::ZhCn, true) => "是",
            (Locale::ZhCn, false) => "否",
            (Locale::ZhTw, true) => "是",
            (Locale::ZhTw, false) => "否",
            (Locale::EnUs, true) => "True",
            (Locale::EnUs, false) => "False",
            (Locale::JaJp, true) => "はい",
            (Locale::JaJp, false) => "いいえ",
            (Locale::KoKr, true) => "예",
            (Locale::KoKr, false) => "아니요",
        }
    }

    /// Error shown when required MCP fields are empty.
    pub open spec fn mcp_elicitation_required_error_text(self) -> Seq<char> {
        match self {
            Locale::ZhCn => "请先填写必填字段。"@,
            Locale::ZhTw => "請先填寫必填欄位。"@,
            Locale::EnUs => "Answer all required fields first."@,
            Locale::JaJp => "必須フィールドを先に入力してください。"@,
            Locale::KoKr => "필수 필드를 먼저 입력하세요."@,
        }
    }

    /// Error shown when required MCP fields are empty.
    pub fn mcp_elicitation_required_error(self) -> (r: &'static str)
        ensures
            r@ == self.mcp_elicitation_required_error_text(),
    {
        match self {
            Locale::ZhCn => "请先填写必填字段。",
            Locale::ZhTw => "請先填寫必填欄位。",
            Locale::EnUs => "Answer all required fields first.",
            Locale::JaJp => "必須フィールドを先に入力してください。",
            Locale::KoKr => "필수 필드를 먼저 입력하세요.",
        }
    }

    /// Message shown for an MCP request that cannot be displayed.
    pub open spec fn mcp_elicitation_invalid_text(self) -> Seq<char> {
        match self {
            Locale::ZhCn => "无法显示此 MCP 请求"@,
            Locale::ZhTw => "無法顯示此 MCP 要求"@,
            Locale::EnUs => "Unable to display this MCP request"@,
            Locale::JaJp => "この MCP リクエストを表示できません"@,
            Locale::KoKr => "이 MCP 요청을 표시할 수 없습니다"@,
        }
    }

    /// Message shown for an MCP request that cannot be displayed.
    pub fn mcp_elicitation_invalid(self) -> (r: &'static str)
        ensures
            r@ == self.mcp_elicitation_invalid_text(),
    {
        match self {
            Locale::ZhCn => "无法显示此 MCP 请求",
            Locale::ZhTw => "無法顯示此 MCP 要求",
            Locale::EnUs => "Unable to display this MCP request",
            Locale::JaJp => "この MCP リクエストを表示できません",
            Locale::KoKr => "이 MCP 요청을 표시할 수 없습니다",
        }
    }

    /// Title of the model picker.
    pub open spec fn picker_title_text(self) -> Seq<char> {
        match self {
            Locale::ZhCn => "选择模型"@,
            Locale::ZhTw => "選擇模型"@,
            Locale::EnUs => "Choose a model"@,
            Locale::JaJp => "モデルを選択"@,
            Locale::KoKr => "모델 선택"@,
        }
    }

    /// Title of the model picker.
    pub fn picker_title(self) -> (r: &'static str)
        ensures
            r@ == self.picker_title_text(),
    {
        match self {
            Locale::ZhCn => "选择模型",
            Locale::ZhTw => "選擇模型",
            Locale::EnUs => "Choose a model",
            Locale::JaJp => "モデルを選択",
            Locale::KoKr => "모델 선택",
        }
    }

    /// Placeholder of an empty model picker.
    pub open spec fn picker_empty_text(self) -> Seq<char> {
        match self {
            Locale::ZhCn => "没有匹配的模型。按 Esc 取消"@,
            Locale::ZhTw => "沒有符合的模型。按 Esc 取消"@,
            Locale::EnUs => "No matching models. Esc cancel"@,
            Locale::JaJp => "一致するモデルがありません。Esc でキャンセル"@,
            Locale::KoKr => "일치하는 모델이 없습니다. Esc로 취소"@,
        }
    }

    /// Placeholder of an empty model picker.
    pub fn picker_empty(self) -> (r: &'static str)
        ensures
            r@ == self.picker_empty_text(),
    {
        match self {
            Locale::ZhCn => "没有匹配的模型。按 Esc 取消",
            Locale::ZhTw => "沒有符合的模型。按 Esc 取消",
            Locale::EnUs => "No matching models. Esc cancel",
            Locale::JaJp => "一致するモデルがありません。Esc でキャンセル",
            Locale::KoKr => "일치하는 모델이 없습니다. Esc로 취소",
        }
    }

    /// Key hints of the model picker.
    pub open spec fn picker_footer_text(self) -> Seq<char> {
        match self {
            Locale::ZhCn => "上下移动  Enter 选择  Esc 取消"@,
            Locale::ZhTw => "上下移動  Enter 選擇  Esc 取消"@,
            Locale::EnUs => "Up/Down move  Enter select  Esc cancel"@,
            Locale::JaJp => "上下移動  Enter 選択  Esc キャンセル"@,
            Locale::KoKr => "위/아래 이동  Enter 선택  Esc 취소"@,
        }
    }

    /// Key hints of the model picker.
    pub fn picker_footer(self) -> (r: &'static str)
        ensures
            r@ == self.picker_footer_text(),
    {
        match self {
            Locale::ZhCn => "上下移动  Enter 选择  Esc 取消",
            Locale::ZhTw => "上下移動  Enter 選擇  Esc 取消",
            Locale::EnUs => "Up/Down move  Enter select  Esc cancel",
            Locale::JaJp => "上下移動  Enter 選択  Esc キャンセル",
            Locale::KoKr => "위/아래 이동  Enter 선택  Esc 취소",
        }
    }

    /// Title of the agent picker.
    pub open spec fn agent_picker_title_text(self) -> Seq<char> {
        match self {
            Locale::ZhCn => "选择 Agent"@,
            Locale::ZhTw => "選擇 Agent"@,
            Locale::EnUs => "Choose an agent"@,
            Locale::JaJp => "Agent を選択"@,
            Locale::KoKr => "에이전트 선택"@,
        }
    }

    /// Title of the agent picker.
    pub fn agent_picker_title(self) -> (r: &'static str)
        ensures
            r@ == self.agent_picker_title_text(),
    {
        match self {
            Locale::ZhCn => "选择 Agent",
            Locale::ZhTw => "選擇 Agent",
            Locale::EnUs => "Choose an agent",
            Locale::JaJp => "Agent を選択",
            Locale::KoKr => "에이전트 선택",
        }
    }

    /// Placeholder of an empty agent picker.
    pub open spec fn agent_picker_empty_text(self) -> Seq<char> {
        match self {
            Locale::ZhCn => "暂无可用的子 Agent。按 Esc 取消"@,
            Locale::ZhTw => "目前沒有可用的子 Agent。按 Esc 取消"@,
            Locale::EnUs => "No sub-agents available. Esc cancel"@,
            Locale::JaJp => "利用可能なサブ Agent がありません。Esc でキャンセル"@,
            Locale::KoKr => "사용 가능한 하위 에이전트가 없습니다. Esc로 취소"@,
        }
    }

    /// Placeholder of an empty agent picker.
    pub fn agent_picker_empty(self) -> (r: &'static str)
        ensures
            r@ == self.agent_picker_empty_text(),
    {
        match self {
            Locale::ZhCn => "暂无可用的子 Agent。按 Esc 取消",
            Locale::ZhTw => "目前沒有可用的子 Agent。按 Esc 取消",
            Locale::EnUs => "No sub-agents available. Esc cancel",
            Locale::JaJp => "利用可能なサブ Agent がありません。Esc でキャンセル",
            Locale::KoKr => "사용 가능한 하위 에이전트가 없습니다. Esc로 취소",
        }
    }

    /// Key hints of the agent picker.
    pub open spec fn agent_picker_footer_text(self) -> Seq<char> {
        match self {
            Locale::ZhCn => "上下移动  Enter 查看  Esc 取消"@,
            Locale::ZhTw => "上下移動  Enter 檢視  Esc 取消"@,
            Locale::EnUs => "Up/Down move  Enter view  Esc cancel"@,
            Locale::JaJp => "上下移動  Enter 表示  Esc キャンセル"@,
            Locale::KoKr => "위/아래 이동  Enter 보기  Esc 취소"@,
        }
    }

    /// Key hints of the agent picker.
    pub fn agent_picker_footer(self) -> (r: &'static str)
        ensures
            r@ == self.agent_picker_footer_text(),
    {
        match self {
            Locale::ZhCn => "上下移动  Enter 查看  Esc 取消",
            Locale::ZhTw => "上下移動  Enter 檢視  Esc 取消",
            Locale::EnUs => "Up/Down move  Enter view  Esc cancel",
            Locale::JaJp => "上下移動  Enter 表示  Esc キャンセル",
            Locale::KoKr => "위/아래 이동  Enter 보기  Esc 취소",
        }
    }

    /// Title of the agents overview.
    pub open spec fn agents_overview_title_text(self) -> Seq<char> {
        match self {
            Locale::ZhCn => "Agent 控制中心"@,
            Locale::ZhTw => "Agent 控制中心"@,
            Locale::EnUs => "Agent command center"@,
            Locale::JaJp => "Agent コマンドセンター"@,
            Locale::KoKr => "에이전트 명령 센터"@,
        }
    }

    /// Title of the agents overview.
    pub fn agents_overview_title(self) -> (r: &'static str)
        ensures
            r@ == self.agents_overview_title_text(),
    {
        match self {
            Locale::ZhCn => "Agent 控制中心",
            Locale::ZhTw => "Agent 控制中心",
            Locale::EnUs => "Agent command center",
            Locale::JaJp => "Agent コマンドセンター",
            Locale::KoKr => "에이전트 명령 센터",
        }
    }

    /// Key hints of the agents overview.
    pub open spec fn agents_overview_footer_text(self) -> Seq<char> {
        match self {
            Locale::ZhCn => "上下移动 · Enter 打开 · / 或 Ctrl+F 搜索 · Ctrl+N 新建 · Ctrl+R 改名 · Ctrl+X 停止 · Ctrl+S 分组 · r 刷新 · Esc 返回"@,
            Locale::ZhTw => "上下移動 · Enter 開啟 · / 或 Ctrl+F 搜尋 · Ctrl+N 新建 · Ctrl+R 改名 · Ctrl+X 停止 · Ctrl+S 分組 · r 重新整理 · Esc 返回"@,
            Locale::EnUs => "Up/Down navigate · Enter open · / or Ctrl+F search · Ctrl+N new · Ctrl+R rename · Ctrl+X stop · Ctrl+S group · r refresh · Esc back"@,
            Locale::JaJp => "上下移動 · Enter 開く · / または Ctrl+F 検索 · Ctrl+N 新規 · Ctrl+R 名前変更 · Ctrl+X 停止 · Ctrl+S グループ · r 更新 · Esc 戻る"@,
            Locale::KoKr => "위/아래 이동 · Enter 열기 · / 또는 Ctrl+F 검색 · Ctrl+N 새 작업 · Ctrl+R 이름 변경 · Ctrl+X 중지 · Ctrl+S 그룹 · r 새로 고침 · Esc 뒤로"@,
        }
    }

    /// Key hints of the agents overview.
    pub fn agents_overview_footer(self) -> (r: &'static str)
        ensures
            r@ == self.agents_overview_footer_text(),
    {
        match self {
            Locale::ZhCn => "上下移动 · Enter 打开 · / 或 Ctrl+F 搜索 · Ctrl+N 新建 · Ctrl+R 改名 · Ctrl+X 停止 · Ctrl+S 分组 · r 刷新 · Esc 返回",
            Locale::ZhTw => "上下移動 · Enter 開啟 · / 或 Ctrl+F 搜尋 · Ctrl+N 新建 · Ctrl+R 改名 · Ctrl+X 停止 · Ctrl+S 分組 · r 重新整理 · Esc 返回",
            Locale::EnUs => "Up/Down navigate · Enter open · / or Ctrl+F search · Ctrl+N new · Ctrl+R rename · Ctrl+X stop · Ctrl+S group · r refresh · Esc back",
            Locale::JaJp => "上下移動 · Enter 開く · / または Ctrl+F 検索 · Ctrl+N 新規 · Ctrl+R 名前変更 · Ctrl+X 停止 · Ctrl+S グループ · r 更新 · Esc 戻る",
            Locale::KoKr => "위/아래 이동 · Enter 열기 · / 또는 Ctrl+F 검색 · Ctrl+N 새 작업 · Ctrl+R 이름 변경 · Ctrl+X 중지 · Ctrl+S 그룹 · r 새로 고침 · Esc 뒤로",
        }
    }

    /// Prefix of the agents overview input line (rename or new task).
    pub open spec fn agents_overview_input_prefix_text(self, rename: bool) -> Seq<char> {
        match (self, rename) {
            (Locale::ZhCn, true) => "改名"@,
            (Locale::ZhCn, false) => "新建任务"@,
            (Locale::ZhTw, true) => "改名"@,
            (Locale::ZhTw, false) => "新建工作"@,
            (Locale::EnUs, true) => "Rename"@,
            (Locale::EnUs, false) => "New task"@,
            (Locale::JaJp, true) => "名前変更"@,
            (Locale::JaJp, false) => "新しいタスク"@,
            (Locale::KoKr, true) => "이름 변경"@,
            (Locale::KoKr, false) => "새 작업"@,
        }
    }

    /// Prefix of the agents overview input line (rename or new task).
    pub fn agents_overview_input_prefix(self, rename: bool) -> (r: &'static str)
        ensures
            r@ == self.agents_overview_input_prefix_text(rename),
    {
        match (self, rename) {
            (Locale::ZhCn, true) => "改名",
            (Locale::ZhCn, false) => "新建任务",
            (Locale::ZhTw, true) => "改名",
            (Locale::ZhTw, false) => "新建工作",
            (Locale::EnUs, true) => "Rename",
            (Locale::EnUs, false) => "New task",
            (Locale::JaJp, true) => "名前変更",
            (Locale::JaJp, false) => "新しいタスク",
            (Locale::KoKr, true) => "이름 변경",
            (Locale::KoKr, false) => "새 작업",
        }
    }

    /// Prefix of the agents overview search line.
    pub open spec fn agents_overview_search_prefix_text(self) -> Seq<char> {
        match self {
            Locale::ZhCn => "搜索"@,
            Locale::ZhTw => "搜尋"@,
            Locale::EnUs => "Search"@,
            Locale::JaJp => "検索"@,
            Locale::KoKr => "검색"@,
        }
    }

    /// Prefix of the agents overview search line.
    pub fn agents_overview_search_prefix(self) -> (r: &'static str)
        ensures
            r@ == self.agents_overview_search_prefix_text(),
    {
        match self {
            Locale::ZhCn => "搜索",
            Locale::ZhTw => "搜尋",
            Locale::EnUs => "Search",
            Locale::JaJp => "検索",
            Locale::KoKr => "검색",
        }
    }

    /// Title of the conversation picker.
    pub open spec fn resume_title_text(self) -> Seq<char> {
        match self {
            Locale::ZhCn => "选择会话"@,
            Locale::ZhTw => "選擇工作階段"@,
            Locale::EnUs => "Select a conversation"@,
            Locale::JaJp => "会話を選択"@,
            Locale::KoKr => "대화 선택"@,
        }
    }

    /// Title of the conversation picker.
    pub fn resume_title(self) -> (r: &'static str)
        ensures
            r@ == self.resume_title_text(),
    {
        match self {
            Locale::ZhCn => "选择会话",
            Locale::ZhTw => "選擇工作階段",
            Locale::EnUs => "Select a conversation",
            Locale::JaJp => "会話を選択",
            Locale::KoKr => "대화 선택",
        }
    }

    /// Name shown for a conversation without a title.
    pub open spec fn untitled_conversation_text(self) -> Seq<char> {
        match self {
            Locale::ZhCn => "未命名会话"@,
            Locale::ZhTw => "未命名工作階段"@,
            Locale::EnUs => "Untitled conversation"@,
            Locale::JaJp => "無題の会話"@,
            Locale::KoKr => "제목 없는 대화"@,
        }
    }

    /// Name shown for a conversation without a title.
    pub fn untitled_conversation(self) -> (r: &'static str)
        ensures
            r@ == self.untitled_conversation_text(),
    {
        match self {
            Locale::ZhCn => "未命名会话",
            Locale::ZhTw => "未命名工作階段",
            Locale::EnUs => "Untitled conversation",
            Locale::JaJp => "無題の会話",
            Locale::KoKr => "제목 없는 대화",
        }
    }

    /// Label of the resume action.
    pub open spec fn resume_label_text(self) -> Seq<char> {
        match self {
            Locale::ZhCn => "恢复"@,
            Locale::ZhTw => "恢復"@,
            Locale::EnUs => "Resume"@,
            Locale::JaJp => "再開"@,
            Locale::KoKr => "재개"@,
        }
    }

    /// Label of the resume action.
    pub fn resume_label(self) -> (r: &'static str)
        ensures
            r@ == self.resume_label_text(),
    {
        match self {
            Locale::ZhCn => "恢复",
            Locale::ZhTw => "恢復",
            Locale::EnUs => "Resume",
            Locale::JaJp => "再開",
            Locale::KoKr => "재개",
        }
    }

    /// Placeholder when there is no conversation to resume.
    pub open spec fn resume_empty_text(self) -> Seq<char> {
        match self {
            Locale::ZhCn => "没有可恢复的会话。按 Esc 取消。"@,
            Locale::ZhTw => "沒有可恢復的工作階段。按 Esc 取消。"@,
            Locale::EnUs => "No resumable conversations. Press Esc to cancel."@,
            Locale::JaJp => "再開できる会話がありません。Esc でキャンセル。"@,
            Locale::KoKr => "재개할 수 있는 대화가 없습니다. Esc로 취소."@,
        }
    }

    /// Placeholder when there is no conversation to resume.
    pub fn resume_empty(self) -> (r: &'static str)
        ensures
            r@ == self.resume_empty_text(),
    {
        match self {
            Locale::ZhCn => "没有可恢复的会话。按 Esc 取消。",
            Locale::ZhTw => "沒有可恢復的工作階段。按 Esc 取消。",
            Locale::EnUs => "No resumable conversations. Press Esc to cancel.",
            Locale::JaJp => "再開できる会話がありません。Esc でキャンセル。",
            Locale::KoKr => "재개할 수 있는 대화가 없습니다. Esc로 취소.",
        }
    }

    /// Placeholder while conversations load.
    pub open spec fn resume_loading_text(self) -> Seq<char> {
        match self {
            Locale::ZhCn => "正在加载会话…"@,
            Locale::ZhTw => "正在載入工作階段…"@,
            Locale::EnUs => "Loading conversations…"@,
            Locale::JaJp => "会話を読み込み中…"@,
            Locale::KoKr => "대화 로드 중…"@,
        }
    }

    /// Placeholder while conversations load.
    pub fn resume_loading(self) -> (r: &'static str)
        ensures
            r@ == self.resume_loading_text(),
    {
        match self {
            Locale::ZhCn => "正在加载会话…",
            Locale::ZhTw => "正在載入工作階段…",
            Locale::EnUs => "Loading conversations…",
            Locale::JaJp => "会話を読み込み中…",
            Locale::KoKr => "대화 로드 중…",
        }
    }

    /// Label of a conversation's status column (archived or active).
    pub open spec fn resume_status_label_text(self, archived: bool) -> Seq<char> {
        match (self, archived) {
            (Locale::ZhCn, false) => "活动"@,
            (Locale::ZhCn, true) => "已归档"@,
            (Locale::ZhTw, false) => "使用中"@,
            (Locale::ZhTw, true) => "已封存"@,
            (Locale::EnUs, false) => "Active"@,
            (Locale::EnUs, true) => "Archived"@,
            (Locale::JaJp, false) => "アクティブ"@,
            (Locale::JaJp, true) => "アーカイブ済み"@,
            (Locale::KoKr, false) => "활성"@,
            (Locale::KoKr, true) => "보관됨"@,
        }
    }

    /// Label of a conversation's status column (archived or active).
    pub fn resume_status_label(self, archived: bool) -> (r: &'static str)
        ensures
            r@ == self.resume_status_label_text(archived),
    {
        match (self, archived) {
            (Locale::ZhCn, false) => "活动",
            (Locale::ZhCn, true) => "已归档",
            (Locale::ZhTw, false) => "使用中",
            (Locale::ZhTw, true) => "已封存",
            (Locale::EnUs, false) => "Active",
            (Locale::EnUs, true) => "Archived",
            (Locale::JaJp, false) => "アクティブ",
            (Locale::JaJp, true) => "アーカイブ済み",
            (Locale::KoKr, false) => "활성",
            (Locale::KoKr, true) => "보관됨",
        }
    }

    /// Label of the conversation filter (all or current directory).
    pub open spec fn resume_filter_label_text(self, show_all: bool) -> Seq<char> {
        match (self, show_all) {
            (Locale::ZhCn, false) => "当前目录"@,
            (Locale::ZhCn, true) => "全部目录"@,
            (Locale::ZhTw, false) => "目前目錄"@,
            (Locale::ZhTw, true) => "所有目錄"@,
            (Locale::EnUs, false) => "Current cwd"@,
            (Locale::EnUs, true) => "All directories"@,
            (Locale::JaJp, false) => "現在のディレクトリ"@,
            (Locale::JaJp, true) => "すべてのディレクトリ"@,
            (Locale::KoKr, false) => "현재 디렉터리"@,
            (Locale::KoKr, true) => "모든 디렉터리"@,
        }
    }

    /// Label of the conversation filter (all or current directory).
    pub fn resume_filter_label(self, show_all: bool) -> (r: &'static str)
        ensures
            r@ == self.resume_filter_label_text(show_all),
    {
        match (self, show_all) {
            (Locale::ZhCn, false) => "当前目录",
            (Locale::ZhCn, true) => "全部目录",
            (Locale::ZhTw, false) => "目前目錄",
            (Locale::ZhTw, true) => "所有目錄",
            (Locale::EnUs, false) => "Current cwd",
            (Locale::EnUs, true) => "All directories",
            (Locale::JaJp, false) => "現在のディレクトリ",
            (Locale::JaJp, true) => "すべてのディレクトリ",
            (Locale::KoKr, false) => "현재 디렉터리",
            (Locale::KoKr, true) => "모든 디렉터리",
        }
    }

    /// Label of the conversation sort key (created or updated).
    pub open spec fn resume_sort_label_text(self, created: bool) -> Seq<char> {
        match (self, created) {
            (Locale::ZhCn, false) => "按更新时间"@,
            (Locale::ZhCn, true) => "按创建时间"@,
            (Locale::ZhTw, false) => "依更新時間"@,
            (Locale::ZhTw, true) => "依建立時間"@,
            (Locale::EnUs, false) => "Updated"@,
            (Locale::EnUs, true) => "Created"@,
            (Locale::JaJp, false) => "更新日時順"@,
            (Locale::JaJp, true) => "作成日時順"@,
            (Locale::KoKr, false) => "업데이트순"@,
            (Locale::KoKr, true) => "생성순"@,
        }
    }

    /// Label of the conversation sort key (created or updated).
    pub fn resume_sort_label(self, created: bool) -> (r: &'static str)
        ensures
            r@ == self.resume_sort_label_text(created),
    {
        match (self, created) {
            (Locale::ZhCn, false) => "按更新时间",
            (Locale::ZhCn, true) => "按创建时间",
            (Locale::ZhTw, false) => "依更新時間",
            (Locale::ZhTw, true) => "依建立時間",
            (Locale::EnUs, false) => "Updated",
            (Locale::EnUs, true) => "Created",
            (Locale::JaJp, false) => "更新日時順",
            (Locale::JaJp, true) => "作成日時順",
            (Locale::KoKr, false) => "업데이트순",
            (Locale::KoKr, true) => "생성순",
        }
    }

    /// Label of the conversation list density.
    pub open spec fn resume_density_label_text(self, dense: bool) -> Seq<char> {
        match (self, dense) {
            (Locale::ZhCn, false) => "紧凑视图"@,
            (Locale::ZhCn, true) => "舒适视图"@,
            (Locale::ZhTw, false) => "緊湊檢視"@,
            (Locale::ZhTw, true) => "舒適檢視"@,
            (Locale::EnUs, false) => "Dense view"@,
            (Locale::EnUs, true) => "Comfortable view"@,
            (Locale::JaJp, false) => "コンパクト表示"@,
            (Locale::JaJp, true) => "標準表示"@,
            (Locale::KoKr, false) => "밀집 보기"@,
            (Locale::KoKr, true) => "편안한 보기"@,
        }
    }

    /// Label of the conversation list density.
    pub fn resume_density_label(self, dense: bool) -> (r: &'static str)
        ensures
            r@ == self.resume_density_label_text(dense),
    {
        match (self, dense) {
            (Locale::ZhCn, false) => "紧凑视图",
            (Locale::ZhCn, true) => "舒适视图",
            (Locale::ZhTw, false) => "緊湊檢視",
            (Locale::ZhTw, true) => "舒適檢視",
            (Locale::EnUs, false) => "Dense view",
            (Locale::EnUs, true) => "Comfortable view",
            (Locale::JaJp, false) => "コンパクト表示",
            (Locale::JaJp, true) => "標準表示",
            (Locale::KoKr, false) => "밀집 보기",
            (Locale::KoKr, true) => "편안한 보기",
        }
    }

    /// Placeholder of the conversation search.
    pub open spec fn resume_search_placeholder_text(self) -> Seq<char> {
        match self {
            Locale::ZhCn => "输入以搜索会话"@,
            Locale::ZhTw => "輸入以搜尋工作階段"@,
            Locale::EnUs => "Type to search conversations"@,
            Locale::JaJp => "入力して会話を検索"@,
            Locale::KoKr => "입력하여 대화 검색"@,
        }
    }

    /// Placeholder of the conversation search.
    pub fn resume_search_placeholder(self) -> (r: &'static str)
        ensures
            r@ == self.resume_search_placeholder_text(),
    {
        match self {
            Locale::ZhCn => "输入以搜索会话",
            Locale::ZhTw => "輸入以搜尋工作階段",
            Locale::EnUs => "Type to search conversations",
            Locale::JaJp => "入力して会話を検索",
            Locale::KoKr => "입력하여 대화 검색",
        }
    }

    /// Title of the resume or fork picker.
    pub open spec fn resume_picker_title_text(self, fork: bool) -> Seq<char> {
        match (self, fork) {
            (Locale::ZhCn, false) => "恢复之前的会话"@,
            (Locale::ZhCn, true) => "从之前的会话分叉"@,
            (Locale::ZhTw, false) => "恢復先前的工作階段"@,
            (Locale::ZhTw, true) => "從先前的工作階段分支"@,
            (Locale::EnUs, false) => "Resume a previous session"@,
            (Locale::EnUs, true) => "Fork a previous session"@,
            (Locale::JaJp, false) => "以前のセッションを再開"@,
            (Locale::JaJp, true) => "以前のセッションを分岐"@,
            (Locale::KoKr, false) => "이전 세션 재개"@,
            (Locale::KoKr, true) => "이전 세션에서 분기"@,
        }
    }

    /// Title of the resume or fork picker.
    pub fn resume_picker_title(self, fork: bool) -> (r: &'static str)
        ensures
            r@ == self.resume_picker_title_text(fork),
    {
        match (self, fork) {
            (Locale::ZhCn, false) => "恢复之前的会话",
            (Locale::ZhCn, true) => "从之前的会话分叉",
            (Locale::ZhTw, false) => "恢復先前的工作階段",
            (Locale::ZhTw, true) => "從先前的工作階段分支",
            (Locale::EnUs, false) => "Resume a previous session",
            (Locale::EnUs, true) => "Fork a previous session",
            (Locale::JaJp, false) => "以前のセッションを再開",
            (Locale::JaJp, true) => "以前のセッションを分岐",
            (Locale::KoKr, false) => "이전 세션 재개",
            (Locale::KoKr, true) => "이전 세션에서 분기",
        }
    }

    /// Hint for the Enter key of the conversation picker.
    pub open spec fn resume_enter_hint_text(self, fork: bool, archived: bool) -> Seq<char> {
        match (self, fork, archived) {
            (Locale::ZhCn, _, true) => "Enter 恢复"@,
            (Locale::ZhCn, false, false) => "Enter 恢复"@,
            (Locale::ZhCn, true, false) => "Enter 分叉"@,
            (Locale::ZhTw, _, true) => "Enter 恢復"@,
            (Locale::ZhTw, false, false) => "Enter 恢復"@,
            (Locale::ZhTw, true, false) => "Enter 分支"@,
            (Locale::EnUs, _, true) => "Enter restore"@,
            (Locale::EnUs, false, false) => "Enter resume"@,
            (Locale::EnUs, true, false) => "Enter fork"@,
            (Locale::JaJp, _, true) => "Enter 再開"@,
            (Locale::JaJp, false, false) => "Enter 再開"@,
            (Locale::JaJp, true, false) => "Enter 分岐"@,
            (Locale::KoKr, _, true) => "Enter 복원"@,
            (Locale::KoKr, false, false) => "Enter 재개"@,
            (Locale::KoKr, true, false) => "Enter 분기"@,
        }
    }

    /// Hint for the Enter key of the conversation picker.
    pub fn resume_enter_hint(self, fork: bool, archived: bool) -> (r: &'static str)
        ensures
            r@ == self.resume_enter_hint_text(fork, archived),
    {
        match (self, fork, archived) {
            (Locale::ZhCn, _, true) => "Enter 恢复",
            (Locale::ZhCn, false, false) => "Enter 恢复",
            (Locale::ZhCn, true, false) => "Enter 分叉",
            (Locale::ZhTw, _, true) => "Enter 恢復",
            (Locale::ZhTw, false, false) => "Enter 恢復",
            (Locale::ZhTw, true, false) => "Enter 分支",
            (Locale::EnUs, _, true) => "Enter restore",
            (Locale::EnUs, false, false) => "Enter resume",
            (Locale::EnUs, true, false) => "Enter fork",
            (Locale::JaJp, _, true) => "Enter 再開",
            (Locale::JaJp, false, false) => "Enter 再開",
            (Locale::JaJp, true, false) => "Enter 分岐",
            (Locale::KoKr, _, true) => "Enter 복원",
            (Locale::KoKr, false, false) => "Enter 재개",
            (Locale::KoKr, true, false) => "Enter 분기",
        }
    }

    /// Key hints of the conversation picker.
    pub open spec fn resume_controls_hint_text(self) -> Seq<char> {
        match self {
            Locale::ZhCn => "Esc 新建  Ctrl+C 退出  Ctrl+S 状态  Ctrl+F 目录  Ctrl+R 排序  Ctrl+O 密度"@,
            Locale::ZhTw => "Esc 新建  Ctrl+C 離開  Ctrl+S 狀態  Ctrl+F 目錄  Ctrl+R 排序  Ctrl+O 密度"@,
            Locale::EnUs => "Esc new  Ctrl+C quit  Ctrl+S status  Ctrl+F directory  Ctrl+R sort  Ctrl+O density"@,
            Locale::JaJp => "Esc 新規  Ctrl+C 終了  Ctrl+S 状態  Ctrl+F ディレクトリ  Ctrl+R 並び順  Ctrl+O 密度"@,
            Locale::KoKr => "Esc 새로 만들기  Ctrl+C 종료  Ctrl+S 상태  Ctrl+F 디렉터리  Ctrl+R 정렬  Ctrl+O 밀도"@,
        }
    }

    /// Key hints of the conversation picker.
    pub fn resume_controls_hint(self) -> (r: &'static str)
        ensures
            r@ == self.resume_controls_hint_text(),
    {
        match self {
            Locale::ZhCn => "Esc 新建  Ctrl+C 退出  Ctrl+S 状态  Ctrl+F 目录  Ctrl+R 排序  Ctrl+O 密度",
            Locale::ZhTw => "Esc 新建  Ctrl+C 離開  Ctrl+S 狀態  Ctrl+F 目錄  Ctrl+R 排序  Ctrl+O 密度",
            Locale::EnUs => "Esc new  Ctrl+C quit  Ctrl+S status  Ctrl+F directory  Ctrl+R sort  Ctrl+O density",
            Locale::JaJp => "Esc 新規  Ctrl+C 終了  Ctrl+S 状態  Ctrl+F ディレクトリ  Ctrl+R 並び順  Ctrl+O 密度",
            Locale::KoKr => "Esc 새로 만들기  Ctrl+C 종료  Ctrl+S 상태  Ctrl+F 디렉터리  Ctrl+R 정렬  Ctrl+O 밀도",
        }
    }

    /// Hint for expanding a conversation preview.
    pub open spec fn resume_expand_hint_text(self) -> Seq<char> {
        match self {
            Locale::ZhCn => "Ctrl+E 展开记录"@,
            Locale::ZhTw => "Ctrl+E 展開記錄"@,
            Locale::EnUs => "Ctrl+E expand transcript"@,
            Locale::JaJp => "Ctrl+E 履歴を展開"@,
            Locale::KoKr => "Ctrl+E 대화 기록 펼치기"@,
        }
    }

    /// Hint for expanding a conversation preview.
    pub fn resume_expand_hint(self) -> (r: &'static str)
        ensures
            r@ == self.resume_expand_hint_text(),
    {
        match self {
            Locale::ZhCn => "Ctrl+E 展开记录",
            Locale::ZhTw => "Ctrl+E 展開記錄",
            Locale::EnUs => "Ctrl+E expand transcript",
            Locale::JaJp => "Ctrl+E 履歴を展開",
            Locale::KoKr => "Ctrl+E 대화 기록 펼치기",
        }
    }

    /// Hint for opening a conversation transcript.
    pub open spec fn resume_transcript_hint_text(self) -> Seq<char> {
        match self {
            Locale::ZhCn => "Ctrl+T 查看完整记录"@,
            Locale::ZhTw => "Ctrl+T 檢視完整記錄"@,
            Locale::EnUs => "Ctrl+T view full transcript"@,
            Locale::JaJp => "Ctrl+T 完全な履歴を表示"@,
            Locale::KoKr => "Ctrl+T 전체 대화 기록 보기"@,
        }
    }

    /// Hint for opening a conversation transcript.
    pub fn resume_transcript_hint(self) -> (r: &'static str)
        ensures
            r@ == self.resume_transcript_hint_text(),
    {
        match self {
            Locale::ZhCn => "Ctrl+T 查看完整记录",
            Locale::ZhTw => "Ctrl+T 檢視完整記錄",
            Locale::EnUs => "Ctrl+T view full transcript",
            Locale::JaJp => "Ctrl+T 完全な履歴を表示",
            Locale::KoKr => "Ctrl+T 전체 대화 기록 보기",
        }
    }

    /// Label of the creation time column.
    pub open spec fn created_label_text(self) -> Seq<char> {
        match self {
            Locale::ZhCn => "创建时间"@,
            Locale::ZhTw => "建立時間"@,
            Locale::EnUs => "created"@,
            Locale::JaJp => "作成日時"@,
            Locale::KoKr => "생성 시간"@,
        }
    }

    /// Label of the creation time column.
    pub fn created_label(self) -> (r: &'static str)
        ensures
            r@ == self.created_label_text(),
    {
        match self {
            Locale::ZhCn => "创建时间",
            Locale::ZhTw => "建立時間",
            Locale::EnUs => "created",
            Locale::JaJp => "作成日時",
            Locale::KoKr => "생성 시간",
        }
    }

    /// Label of the update time column.
    pub open spec fn updated_label_text(self) -> Seq<char> {
        match self {
            Locale::ZhCn => "更新时间"@,
            Locale::ZhTw => "更新時間"@,
            Locale::EnUs => "updated"@,
            Locale::JaJp => "更新日時"@,
            Locale::KoKr => "업데이트 시간"@,
        }
    }

    /// Label of the update time column.
    pub fn updated_label(self) -> (r: &'static str)
        ensures
            r@ == self.updated_label_text(),
    {
        match self {
            Locale::ZhCn => "更新时间",
            Locale::ZhTw => "更新時間",
            Locale::EnUs => "updated",
            Locale::JaJp => "更新日時",
            Locale::KoKr => "업데이트 시간",
        }
    }

    /// Placeholder while a transcript loads.
    pub open spec fn resume_transcript_loading_text(self) -> Seq<char> {
        match self {
            Locale::ZhCn => "正在加载对话记录…"@,
            Locale::ZhTw => "正在載入對話記錄…"@,
            Locale::EnUs => "Loading transcript…"@,
            Locale::JaJp => "会話履歴を読み込み中…"@,
            Locale::KoKr => "대화 기록 로드 중…"@,
        }
    }

    /// Placeholder while a transcript loads.
    pub fn resume_transcript_loading(self) -> (r: &'static str)
        ensures
            r@ == self.resume_transcript_loading_text(),
    {
        match self {
            Locale::ZhCn => "正在加载对话记录…",
            Locale::ZhTw => "正在載入對話記錄…",
            Locale::EnUs => "Loading transcript…",
            Locale::JaJp => "会話履歴を読み込み中…",
            Locale::KoKr => "대화 기록 로드 중…",
        }
    }

    /// Message shown when a transcript failed to load.
    pub open spec fn resume_transcript_failed_text(self) -> Seq<char> {
        match self {
            Locale::ZhCn => "无法加载对话记录"@,
            Locale::ZhTw => "無法載入對話記錄"@,
            Locale::EnUs => "Could not load transcript"@,
            Locale::JaJp => "会話履歴を読み込めません"@,
            Locale::KoKr => "대화 기록을 불러올 수 없음"@,
        }
    }

    /// Message shown when a transcript failed to load.
    pub fn resume_transcript_failed(self) -> (r: &'static str)
        ensures
            r@ == self.resume_transcript_failed_text(),
    {
        match self {
            Locale::ZhCn => "无法加载对话记录",
            Locale::ZhTw => "無法載入對話記錄",
            Locale::EnUs => "Could not load transcript",
            Locale::JaJp => "会話履歴を読み込めません",
            Locale::KoKr => "대화 기록을 불러올 수 없음",
        }
    }

    /// Placeholder of an empty transcript.
    pub open spec fn resume_transcript_empty_text(self) -> Seq<char> {
        match self {
            Locale::ZhCn => "没有对话内容"@,
            Locale::ZhTw => "沒有對話內容"@,
            Locale::EnUs => "No transcript content"@,
            Locale::JaJp => "会話内容がありません"@,
            Locale::KoKr => "대화 내용 없음"@,
        }
    }

    /// Placeholder of an empty transcript.
    pub fn resume_transcript_empty(self) -> (r: &'static str)
        ensures
            r@ == self.resume_transcript_empty_text(),
    {
        match self {
            Locale::ZhCn => "没有对话内容",
            Locale::ZhTw => "沒有對話內容",
            Locale::EnUs => "No transcript content",
            Locale::JaJp => "会話内容がありません",
            Locale::KoKr => "대화 내용 없음",
        }
    }

    /// Placeholder when a request has no questions.
    pub open spec fn no_questions_text(self) -> Seq<char> {
        match self {
            Locale::ZhCn => "没有问题"@,
            Locale::ZhTw => "沒有問題"@,
            Locale::EnUs => "No questions"@,
            Locale::JaJp => "質問はありません"@,
            Locale::KoKr => "질문 없음"@,
        }
    }

    /// Placeholder when a request has no questions.
    pub fn no_questions(self) -> (r: &'static str)
        ensures
            r@ == self.no_questions_text(),
    {
        match self {
            Locale::ZhCn => "没有问题",
            Locale::ZhTw => "沒有問題",
            Locale::EnUs => "No questions",
            Locale::JaJp => "質問はありません",
            Locale::KoKr => "질문 없음",
        }
    }

    /// Label of the free-form answer choice.
    pub open spec fn other_option_text(self) -> Seq<char> {
        match self {
            Locale::ZhCn => "其他  输入自定义答案"@,
            Locale::ZhTw => "其他  輸入自訂答案"@,
            Locale::EnUs => "Other  Type a custom answer"@,
            Locale::JaJp => "その他  カスタム回答を入力"@,
            Locale::KoKr => "기타  사용자 지정 답변 입력"@,
        }
    }

    /// Label of the free-form answer choice.
    pub fn other_option(self) -> (r: &'static str)
        ensures
            r@ == self.other_option_text(),
    {
        match self {
            Locale::ZhCn => "其他  输入自定义答案",
            Locale::ZhTw => "其他  輸入自訂答案",
            Locale::EnUs => "Other  Type a custom answer",
            Locale::JaJp => "その他  カスタム回答を入力",
            Locale::KoKr => "기타  사용자 지정 답변 입력",
        }
    }

    /// Label of the notes field.
    pub open spec fn add_notes_text(self) -> Seq<char> {
        match self {
            Locale::ZhCn => "按 Tab 添加备注"@,
            Locale::ZhTw => "按 Tab 新增備註"@,
            Locale::EnUs => "Tab to add notes"@,
            Locale::JaJp => "Tab でメモを追加"@,
            Locale::KoKr => "Tab으로 메모 추가"@,
        }
    }

    /// Label of the notes field.
    pub fn add_notes(self) -> (r: &'static str)
        ensures
            r@ == self.add_notes_text(),
    {
        match self {
            Locale::ZhCn => "按 Tab 添加备注",
            Locale::ZhTw => "按 Tab 新增備註",
            Locale::EnUs => "Tab to add notes",
            Locale::JaJp => "Tab でメモを追加",
            Locale::KoKr => "Tab으로 메모 추가",
        }
    }

    // -----------------------------------------------------------------------
    // Text with values in it
    // -----------------------------------------------------------------------

    /// The message that reports the current working directory.
    pub open spec fn current_working_directory_message_text(self, cwd: Seq<char>) -> Seq<char> {
        match self {
            Locale::ZhCn => "当前工作目录："@ + cwd,
            Locale::ZhTw => "目前工作目錄："@ + cwd,
            Locale::EnUs => "Current working directory: "@ + cwd,
            Locale::JaJp => "現在の作業ディレクトリ："@ + cwd,
            Locale::KoKr => "현재 작업 디렉터리: "@ + cwd,
        }
    }

    /// The message that reports the current working directory.
    pub fn current_working_directory_message(self, cwd: &str) -> (r: String)
        ensures
            r@ == self.current_working_directory_message_text(cwd@),
    {
        let head = match self {
            Locale::ZhCn => "当前工作目录：",
            Locale::ZhTw => "目前工作目錄：",
            Locale::EnUs => "Current working directory: ",
            Locale::JaJp => "現在の作業ディレクトリ：",
            Locale::KoKr => "현재 작업 디렉터리: ",
        };
        let mut s = owned(head);
        s.append(cwd);
        s
    }

    /// The warning that `count` skills were skipped for invalid `SKILL.md` files.
    pub open spec fn skipped_skills_message_text(self, count: nat) -> Seq<char> {
        match self {
            Locale::ZhCn => "由于 SKILL.md 无效，已跳过加载 "@ + dec(count) + " 个技能。"@,
            Locale::ZhTw => "由於 SKILL.md 無效，已略過載入 "@ + dec(count) + " 個技能。"@,
            Locale::EnUs => "Skipped loading "@ + dec(count) + " skill(s) due to invalid SKILL.md files."@,
            Locale::JaJp => "無効な SKILL.md のため、"@ + dec(count) + " 件のスキルをスキップしました。"@,
            Locale::KoKr => "잘못된 SKILL.md로 인해 기술 "@ + dec(count) + "개를 건너뛰었습니다."@,
        }
    }

    /// The warning that `count` skills were skipped for invalid `SKILL.md` files.
    pub fn skipped_skills_message(self, count: usize) -> (r: String)
        ensures
            r@ == self.skipped_skills_message_text(count as nat),
    {
        let (head, tail) = match self {
            Locale::ZhCn => ("由于 SKILL.md 无效，已跳过加载 ", " 个技能。"),
            Locale::ZhTw => ("由於 SKILL.md 無效，已略過載入 ", " 個技能。"),
            Locale::EnUs => ("Skipped loading ", " skill(s) due to invalid SKILL.md files."),
            Locale::JaJp => ("無効な SKILL.md のため、", " 件のスキルをスキップしました。"),
            Locale::KoKr => ("잘못된 SKILL.md로 인해 기술 ", "개를 건너뛰었습니다."),
        };
        around_number(head, count as u64, tail)
    }

    /// The error line for a skill that failed to load.
    pub open spec fn skill_load_error_message_text(
        self,
        path: Seq<char>,
        message: Seq<char>,
    ) -> Seq<char> {
        match self {
            Locale::ZhCn => "技能加载错误："@ + path + "："@ + message,
            Locale::ZhTw => "技能載入錯誤："@ + path + "："@ + message,
            Locale::EnUs => path + ": "@ + message,
            Locale::JaJp => "スキル読み込みエラー："@ + path + "："@ + message,
            Locale::KoKr => "기술 로드 오류: "@ + path + ": "@ + message,
        }
    }

    /// The error line for a skill that failed to load.
    pub fn skill_load_error_message(self, path: &str, message: &str) -> (r: String)
        ensures
            r@ == self.skill_load_error_message_text(path@, message@),
    {
        let (head, sep) = match self {
            Locale::ZhCn => ("技能加载错误：", "："),
            Locale::ZhTw => ("技能載入錯誤：", "："),
            Locale::EnUs => ("", ": "),
            Locale::JaJp => ("スキル読み込みエラー：", "："),
            Locale::KoKr => ("기술 로드 오류: ", ": "),
        };
        let mut s = owned(head);
        s.append(path);
        s.append(sep);
        s.append(message);
        proof {
            if self == Locale::EnUs {
                reveal_strlit("");
                assert(head@ == Seq::<char>::empty());
                assert(s@ =~= path@ + ": "@ + message@);
            }
        }
        s
    }

    /// The label of the attached image numbered `index`, as `[Image #2]`.
    pub open spec fn numbered_image_label_text(self, index: Seq<char>) -> Seq<char> {
        let label = if self == Locale::EnUs {
            "Image"@
        } else {
            self.image_label_text()
        };
        "["@ + label + " #"@ + index + "]"@
    }

    /// The label of the attached image numbered `index`, as `[Image #2]`.
    pub fn numbered_image_label(self, index: &str) -> (r: String)
        ensures
            r@ == self.numbered_image_label_text(index@),
    {
        let label = match self {
            Locale::EnUs => "Image",
            _ => self.image_label(),
        };
        let mut s = owned("[");
        s.append(label);
        s.append(" #");
        s.append(index);
        s.append("]");
        s
    }

    /// The marker that replaces `count` omitted lines of command output.
    pub open spec fn output_omitted_lines_text(self, count: nat) -> Seq<char> {
        match self {
            Locale::ZhCn => "… 已省略 "@ + dec(count) + " 行 …"@,
            Locale::ZhTw => "… 已省略 "@ + dec(count) + " 行 …"@,
            Locale::EnUs => "… "@ + dec(count) + " lines omitted …"@,
            Locale::JaJp => "… "@ + dec(count) + " 行を省略 …"@,
            Locale::KoKr => "… "@ + dec(count) + "줄 생략 …"@,
        }
    }

    /// The marker that replaces `count` omitted lines of command output.
    pub fn output_omitted_lines(self, count: usize) -> (r: String)
        ensures
            r@ == self.output_omitted_lines_text(count as nat),
    {
        let (head, tail) = match self {
            Locale::ZhCn => ("… 已省略 ", " 行 …"),
            Locale::ZhTw => ("… 已省略 ", " 行 …"),
            Locale::EnUs => ("… ", " lines omitted …"),
            Locale::JaJp => ("… ", " 行を省略 …"),
            Locale::KoKr => ("… ", "줄 생략 …"),
        };
        around_number(head, count as u64, tail)
    }

    /// The marker that replaces `count` omitted bytes of command output.
    pub open spec fn output_omitted_bytes_text(self, count: nat) -> Seq<char> {
        match self {
            Locale::ZhCn => "… 已省略 "@ + dec(count) + " 字节 …"@,
            Locale::ZhTw => "… 已省略 "@ + dec(count) + " 位元組 …"@,
            Locale::EnUs => "… "@ + dec(count) + " bytes omitted …"@,
            Locale::JaJp => "… "@ + dec(count) + " バイトを省略 …"@,
            Locale::KoKr => "… "@ + dec(count) + "바이트 생략 …"@,
        }
    }

    /// The marker that replaces `count` omitted bytes of command output.
    pub fn output_omitted_bytes(self, count: usize) -> (r: String)
        ensures
            r@ == self.output_omitted_bytes_text(count as nat),
    {
        let (head, tail) = match self {
            Locale::ZhCn => ("… 已省略 ", " 字节 …"),
            Locale::ZhTw => ("… 已省略 ", " 位元組 …"),
            Locale::EnUs => ("… ", " bytes omitted …"),
            Locale::JaJp => ("… ", " バイトを省略 …"),
            Locale::KoKr => ("… ", "바이트 생략 …"),
        };
        around_number(head, count as u64, tail)
    }

    /// The title of an MCP request from `server_name`.
    pub open spec fn mcp_elicitation_title_text(self, server_name: Seq<char>) -> Seq<char> {
        match self {
            Locale::ZhCn => "MCP 请求："@ + server_name,
            Locale::ZhTw => "MCP 要求："@ + server_name,
            Locale::EnUs => "MCP request: "@ + server_name,
            Locale::JaJp => "MCP リクエスト："@ + server_name,
            Locale::KoKr => "MCP 요청: "@ + server_name,
        }
    }

    /// The title of an MCP request from `server_name`.
    pub fn mcp_elicitation_title(self, server_name: &str) -> (r: String)
        ensures
            r@ == self.mcp_elicitation_title_text(server_name@),
    {
        let head = match self {
            Locale::ZhCn => "MCP 请求：",
            Locale::ZhTw => "MCP 要求：",
            Locale::EnUs => "MCP request: ",
            Locale::JaJp => "MCP リクエスト：",
            Locale::KoKr => "MCP 요청: ",
        };
        let mut s = owned(head);
        s.append(server_name);
        s
    }

    /// The progress line `Field current/total` of an MCP request.
    pub open spec fn mcp_elicitation_progress_text(self, current: nat, total: nat) -> Seq<char> {
        let head = match self {
            Locale::ZhCn => "字段 "@,
            Locale::ZhTw => "欄位 "@,
            Locale::EnUs => "Field "@,
            Locale::JaJp => "フィールド "@,
            Locale::KoKr => "필드 "@,
        };
        head + dec(current) + "/"@ + dec(total)
    }

    /// The progress line `Field current/total` of an MCP request.
    pub fn mcp_elicitation_progress(self, current: usize, total: usize) -> (r: String)
        ensures
            r@ == self.mcp_elicitation_progress_text(current as nat, total as nat),
    {
        let head = match self {
            Locale::ZhCn => "字段 ",
            Locale::ZhTw => "欄位 ",
            Locale::EnUs => "Field ",
            Locale::JaJp => "フィールド ",
            Locale::KoKr => "필드 ",
        };
        let mut s = owned(head);
        push_dec(&mut s, current as u64);
        s.append("/");
        push_dec(&mut s, total as u64);
        s
    }

    /// Key hints of an MCP request, for a choice field or a text field.
    pub open spec fn mcp_elicitation_controls_text(self, select: bool) -> Seq<char> {
        match (self, select) {
            (Locale::ZhCn, true) => "↑/↓ 选择  Enter 确认  Tab/←/→ 切换字段  Esc 取消"@,
            (Locale::ZhCn, false) => "Enter 确认  Tab 切换字段  Esc 取消"@,
            (Locale::ZhTw, true) => "↑/↓ 選擇  Enter 確認  Tab/←/→ 切換欄位  Esc 取消"@,
            (Locale::ZhTw, false) => "Enter 確認  Tab 切換欄位  Esc 取消"@,
            (Locale::EnUs, true) => "Up/Down select  Enter confirm  Tab/Left/Right switch field  Esc cancel"@,
            (Locale::EnUs, false) => "Enter confirm  Tab switch field  Esc cancel"@,
            (Locale::JaJp, true) => "↑/↓ 選択  Enter 確定  Tab/←/→ フィールド切替  Esc キャンセル"@,
            (Locale::JaJp, false) => "Enter 確定  Tab フィールド切替  Esc キャンセル"@,
            (Locale::KoKr, true) => "↑/↓ 선택  Enter 확인  Tab/←/→ 필드 전환  Esc 취소"@,
            (Locale::KoKr, false) => "Enter 확인  Tab 필드 전환  Esc 취소"@,
        }
    }

    /// Key hints of an MCP request, for a choice field or a text field.
    pub fn mcp_elicitation_controls(self, select: bool) -> (r: String)
        ensures
            r@ == self.mcp_elicitation_controls_text(select),
    {
        let text = match (self, select) {
            (Locale::ZhCn, true) => "↑/↓ 选择  Enter 确认  Tab/←/→ 切换字段  Esc 取消",
            (Locale::ZhCn, false) => "Enter 确认  Tab 切换字段  Esc 取消",
            (Locale::ZhTw, true) => "↑/↓ 選擇  Enter 確認  Tab/←/→ 切換欄位  Esc 取消",
            (Locale::ZhTw, false) => "Enter 確認  Tab 切換欄位  Esc 取消",
            (Locale::EnUs, true) => "Up/Down select  Enter confirm  Tab/Left/Right switch field  Esc cancel",
            (Locale::EnUs, false) => "Enter confirm  Tab switch field  Esc cancel",
            (Locale::JaJp, true) => "↑/↓ 選択  Enter 確定  Tab/←/→ フィールド切替  Esc キャンセル",
            (Locale::JaJp, false) => "Enter 確定  Tab フィールド切替  Esc キャンセル",
            (Locale::KoKr, true) => "↑/↓ 선택  Enter 확인  Tab/←/→ 필드 전환  Esc 취소",
            (Locale::KoKr, false) => "Enter 확인  Tab 필드 전환  Esc 취소",
        };
        owned(text)
    }

    /// The title of an approval request of the given kind (`command`, `file`,
    /// `permissions`); a kind that is none of these is asked as a permission
    /// grant, in English.
    pub open spec fn approval_title_text(self, kind: Seq<char>) -> Seq<char> {
        if kind == "command"@ {
            match self {
                Locale::ZhCn => "批准命令？"@,
                Locale::ZhTw => "核准命令？"@,
                Locale::JaJp => "コマンドを承認しますか？"@,
                Locale::KoKr => "명령을 승인할까요?"@,
                Locale::EnUs => "Approve command?"@,
            }
        } else if kind == "file"@ {
            match self {
                Locale::ZhCn => "批准文件更改？"@,
                Locale::ZhTw => "核准檔案變更？"@,
                Locale::JaJp => "ファイル変更を承認しますか？"@,
                Locale::KoKr => "파일 변경을 승인할까요?"@,
                Locale::EnUs => "Approve file changes?"@,
            }
        } else if kind == "permissions"@ {
            match self {
                Locale::ZhCn => "授予额外权限？"@,
                Locale::ZhTw => "授予額外權限？"@,
                Locale::JaJp => "追加権限を付与しますか？"@,
                Locale::KoKr => "추가 권한을 부여할까요?"@,
                Locale::EnUs => "Grant additional permissions?"@,
            }
        } else {
            "Grant additional permissions?"@
        }
    }

    /// The title of an approval request of the given kind.
    pub fn approval_title(self, kind: &str) -> (r: &'static str)
        ensures
            r@ == self.approval_title_text(kind@),
    {
        let k = chars_of(kind);
        if matches_str(&k, "command") {
            match self {
                Locale::ZhCn => "批准命令？",
                Locale::ZhTw => "核准命令？",
                Locale::JaJp => "コマンドを承認しますか？",
                Locale::KoKr => "명령을 승인할까요?",
                Locale::EnUs => "Approve command?",
            }
        } else if matches_str(&k, "file") {
            match self {
                Locale::ZhCn => "批准文件更改？",
                Locale::ZhTw => "核准檔案變更？",
                Locale::JaJp => "ファイル変更を承認しますか？",
                Locale::KoKr => "파일 변경을 승인할까요?",
                Locale::EnUs => "Approve file changes?",
            }
        } else if matches_str(&k, "permissions") {
            match self {
                Locale::ZhCn => "授予额外权限？",
                Locale::ZhTw => "授予額外權限？",
                Locale::JaJp => "追加権限を付与しますか？",
                Locale::KoKr => "추가 권한을 부여할까요?",
                Locale::EnUs => "Grant additional permissions?",
            }
        } else {
            "Grant additional permissions?"
        }
    }

    // -----------------------------------------------------------------------
    // Text translated through the tables
    // -----------------------------------------------------------------------

    /// A status line translated: the text before the first `:` is looked up
    /// in the status table and the rest, with its leading white space
    /// removed, follows the translation after `": "`. An empty lookup key
    /// gives an empty line; a key the table does not know leaves the line
    /// unchanged.
    pub open spec fn status_text(self, s: Seq<char>) -> Seq<char> {
        let prefix = status_key(s);
        if prefix.len() == 0 {
            Seq::<char>::empty()
        } else {
            match key_index(Table::Status, prefix, 0) {
                None => s,
                Some(k) => {
                    let label = row(Table::Status, k).text(self);
                    match status_rest(s) {
                        None => label,
                        Some(rest) => label + ": "@ + rest,
                    }
                },
            }
        }
    }

    /// A status line translated (`"effort: high"` reads `"推論: high"` in
    /// Japanese).
    pub fn status(self, status: &str) -> (r: String)
        ensures
            r@ == self.status_text(status@),
    {
        let v = chars_of(status);
        proof {
            crate::text::lemma_find_char(v@, ':');
        }
        let (prefix, rest): (String, Option<String>) = match position_of(&v, ':') {
            Some(i) => {
                let p = string_of(&v, 0, i);
                let j = trim_start_index(&v, i + 1, v.len());
                let r = string_of(&v, j, v.len());
                proof {
                    let s = status@;
                    assert(p@ =~= s.take(i as int));
                    assert(v@.subrange(i + 1, v.len() as int) =~= s.skip(i + 1));
                    assert(r@ =~= s.skip(i + 1).skip(j - i - 1));
                }
                (p, Some(r))
            },
            None => (owned(status), None),
        };
        if prefix.as_str().is_empty() {
            return String::new();
        }
        match find_key(Table::Status, prefix.as_str()) {
            None => owned(status),
            Some(k) => {
                let label = row_at(Table::Status, k).pick(self);
                match rest {
                    None => owned(label),
                    Some(r) => {
                        let mut s = owned(label);
                        s.append(": ");
                        s.append(r.as_str());
                        s
                    },
                }
            },
        }
    }

    /// A detail line translated: the first row of the detail table whose key
    /// starts the line has that key replaced by its translation; other lines
    /// are unchanged.
    pub open spec fn detail_text(self, detail: Seq<char>) -> Seq<char> {
        translate_prefix(Table::Detail, self, detail)
    }

    /// A detail line translated (`"files: 2"` reads `"파일 수: 2"` in Korean).
    pub fn detail(self, detail: &str) -> (r: String)
        ensures
            r@ == self.detail_text(detail@),
    {
        translate_with_prefix(Table::Detail, self, detail)
    }

    /// A sub-agent event title translated: `Finished waiting` as a whole, else
    /// the first known event prefix, as for detail lines.
    pub open spec fn multi_agent_text(self, text: Seq<char>) -> Seq<char> {
        if text == "Finished waiting"@ {
            match self {
                Locale::ZhCn => "等待完成"@,
                Locale::ZhTw => "等待完成"@,
                Locale::EnUs => text,
                Locale::JaJp => "待機が完了しました"@,
                Locale::KoKr => "대기 완료"@,
            }
        } else {
            translate_prefix(Table::MultiAgent, self, text)
        }
    }

    /// A sub-agent event title translated (`"Spawned agent-1"` reads
    /// `"已启动 agent-1"` in Simplified Chinese).
    pub fn multi_agent(self, text: &str) -> (r: String)
        ensures
            r@ == self.multi_agent_text(text@),
    {
        if crate::text::str_eq(text, "Finished waiting") {
            let done = match self {
                Locale::ZhCn => "等待完成",
                Locale::ZhTw => "等待完成",
                Locale::EnUs => text,
                Locale::JaJp => "待機が完了しました",
                Locale::KoKr => "대기 완료",
            };
            return owned(done);
        }
        translate_with_prefix(Table::MultiAgent, self, text)
    }

    /// An approval option label translated; labels the table does not know
    /// are kept.
    pub open spec fn approval_option_text(self, label: Seq<char>) -> Seq<char> {
        translate_key(Table::ApprovalOption, self, label, label)
    }

    /// An approval option label translated.
    pub fn approval_option(self, label: &str) -> (r: String)
        ensures
            r@ == self.approval_option_text(label@),
    {
        match find_key(Table::ApprovalOption, label) {
            Some(k) => owned(row_at(Table::ApprovalOption, k).pick(self)),
            None => owned(label),
        }
    }

    /// The label of an MCP approval choice (`accept`, `accept_session`,
    /// `accept_always`, `decline`, `cancel`); empty for any other value.
    pub open spec fn mcp_elicitation_approval_option_text(self, value: Seq<char>) -> Seq<char> {
        translate_key(Table::McpApproval, self, value, ""@)
    }

    /// The label of an MCP approval choice.
    pub fn mcp_elicitation_approval_option(self, value: &str) -> (r: &'static str)
        ensures
            r@ == self.mcp_elicitation_approval_option_text(value@),
    {
        match find_key(Table::McpApproval, value) {
            Some(k) => row_at(Table::McpApproval, k).pick(self),
            None => "",
        }
    }

    /// The name of an agents overview group (`need input`, `working`,
    /// `ready`, `finished`); other names are kept.
    pub open spec fn agents_overview_group_label_text(self, group: Seq<char>) -> Seq<char> {
        translate_key(Table::AgentGroup, self, group, group)
    }

    /// The name of an agents overview group.
    pub fn agents_overview_group_label(self, group: &'static str) -> (r: &'static str)
        ensures
            r@ == self.agents_overview_group_label_text(group@),
    {
        match find_key(Table::AgentGroup, group) {
            Some(k) => row_at(Table::AgentGroup, k).pick(self),
            None => group,
        }
    }

    /// The name of a thread state (`active`, `idle`, `not loaded`, `error`);
    /// other states are kept.
    pub open spec fn thread_state_text(self, state: Seq<char>) -> Seq<char> {
        translate_key(Table::ThreadState, self, state, state)
    }

    /// The name of a thread state.
    pub fn thread_state(self, state: &str) -> (r: String)
        ensures
            r@ == self.thread_state_text(state@),
    {
        match find_key(Table::ThreadState, state) {
            Some(k) => owned(row_at(Table::ThreadState, k).pick(self)),
            None => owned(state),
        }
    }
}

/// `head`, the decimal notation of `n`, then `tail`.
fn around_number(head: &str, n: u64, tail: &str) -> (r: String)
    ensures
        r@ == head@ + dec(n as nat) + tail@,
{
    let mut s = owned(head);
    push_dec(&mut s, n);
    s.append(tail);
    s
}

/// The lookup key of a status line: the text before its first `:`, or all of
/// it.
pub open spec fn status_key(s: Seq<char>) -> Seq<char> {
    match find_char(s, ':') {
        Some(i) => s.take(i),
        None => s,
    }
}

/// What follows the first `:` of a status line, leading white space removed.
pub open spec fn status_rest(s: Seq<char>) -> Option<Seq<char>> {
    match find_char(s, ':') {
        Some(i) => Some(trim_start(s.skip(i + 1))),
        None => None,
    }
}

// ---------------------------------------------------------------------------
// Translation tables
// ---------------------------------------------------------------------------

/// One translatable phrase: the key it is found by and its text in each
/// locale.
pub struct Localized {
    pub key: &'static str,
    pub zh_cn: &'static str,
    pub zh_tw: &'static str,
    pub en_us: &'static str,
    pub ja_jp: &'static str,
    pub ko_kr: &'static str,
}

impl Localized {
    /// The phrase in locale `l`.
    pub open spec fn text(self, l: Locale) -> Seq<char> {
        match l {
            Locale::ZhCn => self.zh_cn@,
            Locale::ZhTw => self.zh_tw@,
            Locale::EnUs => self.en_us@,
            Locale::JaJp => self.ja_jp@,
            Locale::KoKr => self.ko_kr@,
        }
    }

    /// The phrase in locale `l`.
    pub fn pick(&self, l: Locale) -> (r: &'static str)
        ensures
            r@ == self.text(l),
    {
        match l {
            Locale::ZhCn => self.zh_cn,
            Locale::ZhTw => self.zh_tw,
            Locale::EnUs => self.en_us,
            Locale::JaJp => self.ja_jp,
            Locale::KoKr => self.ko_kr,
        }
    }
}

/// The translation tables.
#[derive(Clone, Copy, Debug, PartialEq, Eq, Structural)]
pub enum Table {
    Status,
    Detail,
    MultiAgent,
    ApprovalOption,
    McpApproval,
    AgentGroup,
    ThreadState,
}

/// Number of rows of a table.
pub open spec fn table_len(t: Table) -> nat {
    match t {
        Table::Status => 47,
        Table::Detail => 47,
        Table::MultiAgent => 9,
        Table::ApprovalOption => 8,
        Table::McpApproval => 5,
        Table::AgentGroup => 4,
        Table::ThreadState => 4,
    }
}

fn table_size(t: Table) -> (n: usize)
    ensures
        n == table_len(t),
{
    match t {
        Table::Status => 47,
        Table::Detail => 47,
        Table::MultiAgent => 9,
        Table::ApprovalOption => 8,
        Table::McpApproval => 5,
        Table::AgentGroup => 4,
        Table::ThreadState => 4,
    }
}

/// Row `i` of table `t`.
pub open spec fn row(t: Table, i: int) -> Localized {
    match t {
        Table::Status => status_row(i),
        Table::Detail => detail_row(i),
        Table::MultiAgent => multi_agent_row(i),
        Table::ApprovalOption => approval_option_row(i),
        Table::McpApproval => mcp_approval_row(i),
        Table::AgentGroup => agent_group_row(i),
        Table::ThreadState => thread_state_row(i),
    }
}

fn row_at(t: Table, i: usize) -> (r: Localized)
    requires
        i < table_len(t),
    ensures
        r == row(t, i as int),
{
    match t {
        Table::Status => status_row_at(i),
        Table::Detail => detail_row_at(i),
        Table::MultiAgent => multi_agent_row_at(i),
        Table::ApprovalOption => approval_option_row_at(i),
        Table::McpApproval => mcp_approval_row_at(i),
        Table::AgentGroup => agent_group_row_at(i),
        Table::ThreadState => thread_state_row_at(i),
    }
}
/// The first row of `t`, from row `from` on, whose key is `key`.
pub open spec fn key_index(t: Table, key: Seq<char>, from: int) -> Option<int>
    decreases table_len(t) - from,
{
    if from < 0 || from >= table_len(t) {
        None
    } else if row(t, from).key@ == key {
        Some(from)
    } else {
        key_index(t, key, from + 1)
    }
}

/// The first row of `t`, from row `from` on, whose key starts `text`.
pub open spec fn prefix_index(t: Table, text: Seq<char>, from: int) -> Option<int>
    decreases table_len(t) - from,
{
    if from < 0 || from >= table_len(t) {
        None
    } else if is_prefix(row(t, from).key@, text) {
        Some(from)
    } else {
        prefix_index(t, text, from + 1)
    }
}

/// `key` translated through table `t` into locale `l`; `missing` when no row
/// has that key.
pub open spec fn translate_key(t: Table, l: Locale, key: Seq<char>, missing: Seq<char>) -> Seq<
    char,
> {
    match key_index(t, key, 0) {
        Some(k) => row(t, k).text(l),
        None => missing,
    }
}

/// `text` with the key of the first row of `t` that starts it replaced by
/// that row's text in locale `l`; `text` itself when no key starts it.
pub open spec fn translate_prefix(t: Table, l: Locale, text: Seq<char>) -> Seq<char> {
    match prefix_index(t, text, 0) {
        Some(k) => row(t, k).text(l) + text.skip(row(t, k).key@.len() as int),
        None => text,
    }
}

/// Index of the first row of `t` whose key is `key`.
fn find_key(t: Table, key: &str) -> (r: Option<usize>)
    ensures
        match r {
            Some(i) => key_index(t, key@, 0) == Some(i as int) && i < table_len(t),
            None => key_index(t, key@, 0) is None,
        },
{
    let n = table_size(t);
    let mut i: usize = 0;
    while i < n
        invariant
            i <= n,
            n == table_len(t),
            key_index(t, key@, 0) == key_index(t, key@, i as int),
        decreases n - i,
    {
        let r = row_at(t, i);
        if crate::text::str_eq(r.key, key) {
            return Some(i);
        }
        i = i + 1;
    }
    None
}

/// Index of the first row of `t` whose key starts `text`.
fn find_prefix(t: Table, text: &Vec<char>) -> (r: Option<usize>)
    ensures
        match r {
            Some(i) => {
                &&& prefix_index(t, text@, 0) == Some(i as int)
                &&& i < table_len(t)
                &&& is_prefix(row(t, i as int).key@, text@)
            },
            None => prefix_index(t, text@, 0) is None,
        },
{
    let n = table_size(t);
    let mut i: usize = 0;
    while i < n
        invariant
            i <= n,
            n == table_len(t),
            prefix_index(t, text@, 0) == prefix_index(t, text@, i as int),
        decreases n - i,
    {
        let r = row_at(t, i);
        if starts_with_str(text, r.key) {
            return Some(i);
        }
        i = i + 1;
    }
    None
}

/// `translate_prefix` computed.
fn translate_with_prefix(t: Table, l: Locale, text: &str) -> (r: String)
    ensures
        r@ == translate_prefix(t, l, text@),
{
    let v = chars_of(text);
    match find_prefix(t, &v) {
        Some(k) => {
            let r = row_at(t, k);
            let n = chars_of(r.key).len();
            let mut s = owned(r.pick(l));
            let rest = string_of(&v, n, v.len());
            s.append(rest.as_str());
            proof {
                assert(rest@ =~= text@.skip(n as int));
            }
            s
        },
        None => owned(text),
    }
}

/// Row `i` of the table of status phrases, looked up by the text before the first colon.
pub open spec fn status_row(i: int) -> Localized {
    if i == 0 {
        Localized { key: "ready", zh_cn: "就绪", zh_tw: "就緒", en_us: "ready", ja_jp: "準備完了", ko_kr: "준비됨" }
    } else if i == 1 {
        Localized { key: "running", zh_cn: "运行中", zh_tw: "執行中", en_us: "running", ja_jp: "実行中", ko_kr: "실행 중" }
    } else if i == 2 {
        Localized { key: "running hook", zh_cn: "正在运行 Hook", zh_tw: "正在執行 Hook", en_us: "running hook", ja_jp: "Hook を実行中", ko_kr: "Hook 실행 중" }
    } else if i == 3 {
        Localized { key: "running hooks", zh_cn: "正在运行多个 Hook", zh_tw: "正在執行多個 Hook", en_us: "running hooks", ja_jp: "複数の Hook を実行中", ko_kr: "여러 Hook 실행 중" }
    } else if i == 4 {
        Localized { key: "MCP startup issue", zh_cn: "MCP 启动问题", zh_tw: "MCP 啟動問題", en_us: "MCP startup issue", ja_jp: "MCP 起動の問題", ko_kr: "MCP 시작 문제" }
    } else if i == 5 {
        Localized { key: "MCP startup issues", zh_cn: "MCP 启动问题", zh_tw: "MCP 啟動問題", en_us: "MCP startup issues", ja_jp: "MCP 起動の問題", ko_kr: "MCP 시작 문제" }
    } else if i == 6 {
        Localized { key: "completed", zh_cn: "已完成", zh_tw: "已完成", en_us: "completed", ja_jp: "完了", ko_kr: "완료" }
    } else if i == 7 {
        Localized { key: "failed", zh_cn: "失败", zh_tw: "失敗", en_us: "failed", ja_jp: "失敗", ko_kr: "실패" }
    } else if i == 8 {
        Localized { key: "closed", zh_cn: "已关闭", zh_tw: "已關閉", en_us: "closed", ja_jp: "終了", ko_kr: "닫힘" }
    } else if i == 9 {
        Localized { key: "interrupted", zh_cn: "已中断", zh_tw: "已中斷", en_us: "interrupted", ja_jp: "中断", ko_kr: "중단됨" }
    } else if i == 10 {
        Localized { key: "background task started", zh_cn: "后台任务已启动", zh_tw: "背景工作已啟動", en_us: "background task started", ja_jp: "バックグラウンドタスクを開始しました", ko_kr: "백그라운드 작업 시작됨" }
    } else if i == 11 {
        Localized { key: "background task failed", zh_cn: "后台任务失败", zh_tw: "背景工作失敗", en_us: "background task failed", ja_jp: "バックグラウンドタスクに失敗しました", ko_kr: "백그라운드 작업 실패" }
    } else if i == 12 {
        Localized { key: "background task is idle", zh_cn: "后台任务未运行", zh_tw: "背景工作未執行", en_us: "background task is idle", ja_jp: "バックグラウンドタスクは待機中です", ko_kr: "백그라운드 작업 대기 중" }
    } else if i == 13 {
        Localized { key: "stopping background turn", zh_cn: "正在停止后台回合", zh_tw: "正在停止背景回合", en_us: "stopping background turn", ja_jp: "バックグラウンドターンを停止中", ko_kr: "백그라운드 턴 중지 중" }
    } else if i == 14 {
        Localized { key: "agent renamed", zh_cn: "Agent 已改名", zh_tw: "Agent 已改名", en_us: "agent renamed", ja_jp: "Agent の名前を変更しました", ko_kr: "에이전트 이름 변경됨" }
    } else if i == 15 {
        Localized { key: "resume picker is available from /resume", zh_cn: "请使用 /resume 打开会话选择器", zh_tw: "請使用 /resume 開啟工作階段選擇器", en_us: "resume picker is available from /resume", ja_jp: "/resume から再開ピッカーを開けます", ko_kr: "/resume에서 재개 선택기를 열 수 있음" }
    } else if i == 16 {
        Localized { key: "declined", zh_cn: "已拒绝", zh_tw: "已拒絕", en_us: "declined", ja_jp: "拒否", ko_kr: "거부됨" }
    } else if i == 17 {
        Localized { key: "settings updated", zh_cn: "设置已更新", zh_tw: "設定已更新", en_us: "settings updated", ja_jp: "設定を更新しました", ko_kr: "설정이 업데이트됨" }
    } else if i == 18 {
        Localized { key: "collaboration mode updated", zh_cn: "协作模式已更新", zh_tw: "協作模式已更新", en_us: "collaboration mode updated", ja_jp: "コラボレーションモードを更新しました", ko_kr: "협업 모드가 업데이트됨" }
    } else if i == 19 {
        Localized { key: "plan mode", zh_cn: "计划模式", zh_tw: "計畫模式", en_us: "plan mode", ja_jp: "計画モード", ko_kr: "계획 모드" }
    } else if i == 20 {
        Localized { key: "plan mode unavailable on this server", zh_cn: "此服务器不支持计划模式", zh_tw: "此伺服器不支援計畫模式", en_us: "plan mode unavailable on this server", ja_jp: "このサーバーでは計画モードを利用できません", ko_kr: "이 서버에서는 계획 모드를 사용할 수 없음" }
    } else if i == 21 {
        Localized { key: "switched agent", zh_cn: "已切换 Agent", zh_tw: "已切換 Agent", en_us: "switched agent", ja_jp: "Agent を切り替えました", ko_kr: "에이전트 전환됨" }
    } else if i == 22 {
        Localized { key: "sub-agent thread is parent-owned", zh_cn: "子 Agent 会话由父会话控制", zh_tw: "子 Agent 工作階段由父工作階段控制", en_us: "sub-agent thread is parent-owned", ja_jp: "サブ Agent スレッドは親が管理します", ko_kr: "하위 에이전트 스레드는 부모가 제어함" }
    } else if i == 23 {
        Localized { key: "agent switch failed", zh_cn: "切换 Agent 失败", zh_tw: "切換 Agent 失敗", en_us: "agent switch failed", ja_jp: "Agent の切り替えに失敗しました", ko_kr: "에이전트 전환 실패" }
    } else if i == 24 {
        Localized { key: "no sub-agents available", zh_cn: "暂无可用的子 Agent", zh_tw: "目前沒有可用的子 Agent", en_us: "no sub-agents available", ja_jp: "利用可能なサブ Agent がありません", ko_kr: "사용 가능한 하위 에이전트가 없음" }
    } else if i == 25 {
        Localized { key: "choose model", zh_cn: "请选择模型", zh_tw: "請選擇模型", en_us: "choose model", ja_jp: "モデルを選択", ko_kr: "모델 선택" }
    } else if i == 26 {
        Localized { key: "steering", zh_cn: "正在引导", zh_tw: "正在引導", en_us: "steering", ja_jp: "ステアリング中", ko_kr: "조정 중" }
    } else if i == 27 {
        Localized { key: "queued", zh_cn: "已排队", zh_tw: "已排隊", en_us: "queued", ja_jp: "キューに追加済み", ko_kr: "대기열에 추가됨" }
    } else if i == 28 {
        Localized { key: "queue unavailable", zh_cn: "队列不可用", zh_tw: "佇列無法使用", en_us: "queue unavailable", ja_jp: "キューを利用できません", ko_kr: "대기열을 사용할 수 없음" }
    } else if i == 29 {
        Localized { key: "queued input editing", zh_cn: "正在编辑排队输入", zh_tw: "正在編輯排隊輸入", en_us: "editing queued input", ja_jp: "キュー入力を編集中", ko_kr: "대기 입력 편집 중" }
    } else if i == 30 {
        Localized { key: "queued input unavailable", zh_cn: "排队输入已不可用", zh_tw: "排隊輸入已無法使用", en_us: "queued input unavailable", ja_jp: "キュー入力を利用できません", ko_kr: "대기 입력을 사용할 수 없음" }
    } else if i == 31 {
        Localized { key: "queue edit failed", zh_cn: "编辑排队输入失败", zh_tw: "編輯排隊輸入失敗", en_us: "queue edit failed", ja_jp: "キュー入力の編集に失敗しました", ko_kr: "대기 입력 편집 실패" }
    } else if i == 32 {
        Localized { key: "interrupting", zh_cn: "正在中断", zh_tw: "正在中斷", en_us: "interrupting", ja_jp: "中断中", ko_kr: "중단 중" }
    } else if i == 33 {
        Localized { key: "editor draft empty", zh_cn: "编辑器草稿为空", zh_tw: "編輯器草稿為空", en_us: "editor draft empty", ja_jp: "エディターの下書きが空です", ko_kr: "편집기 초안이 비어 있음" }
    } else if i == 34 {
        Localized { key: "copied last response", zh_cn: "已复制上一条回复", zh_tw: "已複製上一則回覆", en_us: "copied last response", ja_jp: "前回の応答をコピーしました", ko_kr: "마지막 응답을 복사함" }
    } else if i == 35 {
        Localized { key: "no agent response to copy", zh_cn: "没有可复制的 Agent 回复", zh_tw: "沒有可複製的 Agent 回覆", en_us: "no agent response to copy", ja_jp: "コピーできる Agent 応答がありません", ko_kr: "복사할 Agent 응답이 없음" }
    } else if i == 36 {
        Localized { key: "copy failed", zh_cn: "复制失败", zh_tw: "複製失敗", en_us: "copy failed", ja_jp: "コピーに失敗しました", ko_kr: "복사 실패" }
    } else if i == 37 {
        Localized { key: "exported conversation to clipboard", zh_cn: "已将完整对话复制到剪贴板", zh_tw: "已將完整對話複製到剪貼簿", en_us: "exported conversation to clipboard", ja_jp: "完全な会話をクリップボードにコピーしました", ko_kr: "전체 대화를 클립보드에 복사함" }
    } else if i == 38 {
        Localized { key: "exported conversation to", zh_cn: "完整对话已导出到", zh_tw: "完整對話已匯出到", en_us: "exported conversation to", ja_jp: "完全な会話をエクスポートしました", ko_kr: "전체 대화를 내보냄" }
    } else if i == 39 {
        Localized { key: "export failed", zh_cn: "导出失败", zh_tw: "匯出失敗", en_us: "export failed", ja_jp: "エクスポートに失敗しました", ko_kr: "내보내기 실패" }
    } else if i == 40 {
        Localized { key: "image attached", zh_cn: "已附加图片", zh_tw: "已附加圖片", en_us: "image attached", ja_jp: "画像を添付しました", ko_kr: "이미지 첨부됨" }
    } else if i == 41 {
        Localized { key: "image paste failed", zh_cn: "粘贴图片失败", zh_tw: "貼上圖片失敗", en_us: "image paste failed", ja_jp: "画像の貼り付けに失敗しました", ko_kr: "이미지 붙여넣기 실패" }
    } else if i == 42 {
        Localized { key: "reconnecting", zh_cn: "正在重连", zh_tw: "正在重新連線", en_us: "reconnecting", ja_jp: "再接続中", ko_kr: "재연결 중" }
    } else if i == 43 {
        Localized { key: "effort", zh_cn: "推理", zh_tw: "推理", en_us: "effort", ja_jp: "推論", ko_kr: "추론" }
    } else if i == 44 {
        Localized { key: "permissions", zh_cn: "权限", zh_tw: "權限", en_us: "permissions", ja_jp: "権限", ko_kr: "권한" }
    } else if i == 45 {
        Localized { key: "prompt history unavailable", zh_cn: "提示历史不可用", zh_tw: "提示歷史不可用", en_us: "prompt history unavailable", ja_jp: "プロンプト履歴を利用できません", ko_kr: "프롬프트 기록을 사용할 수 없음" }
    } else {
        Localized { key: "editor unavailable", zh_cn: "编辑器不可用", zh_tw: "編輯器不可用", en_us: "editor unavailable", ja_jp: "エディターを利用できません", ko_kr: "편집기를 사용할 수 없음" }
    }
}

fn status_row_at(i: usize) -> (r: Localized)
    requires
        i < 47,
    ensures
        r == status_row(i as int),
{
    match i {
        0 => Localized { key: "ready", zh_cn: "就绪", zh_tw: "就緒", en_us: "ready", ja_jp: "準備完了", ko_kr: "준비됨" },
        1 => Localized { key: "running", zh_cn: "运行中", zh_tw: "執行中", en_us: "running", ja_jp: "実行中", ko_kr: "실행 중" },
        2 => Localized { key: "running hook", zh_cn: "正在运行 Hook", zh_tw: "正在執行 Hook", en_us: "running hook", ja_jp: "Hook を実行中", ko_kr: "Hook 실행 중" },
        3 => Localized { key: "running hooks", zh_cn: "正在运行多个 Hook", zh_tw: "正在執行多個 Hook", en_us: "running hooks", ja_jp: "複数の Hook を実行中", ko_kr: "여러 Hook 실행 중" },
        4 => Localized { key: "MCP startup issue", zh_cn: "MCP 启动问题", zh_tw: "MCP 啟動問題", en_us: "MCP startup issue", ja_jp: "MCP 起動の問題", ko_kr: "MCP 시작 문제" },
        5 => Localized { key: "MCP startup issues", zh_cn: "MCP 启动问题", zh_tw: "MCP 啟動問題", en_us: "MCP startup issues", ja_jp: "MCP 起動の問題", ko_kr: "MCP 시작 문제" },
        6 => Localized { key: "completed", zh_cn: "已完成", zh_tw: "已完成", en_us: "completed", ja_jp: "完了", ko_kr: "완료" },
        7 => Localized { key: "failed", zh_cn: "失败", zh_tw: "失敗", en_us: "failed", ja_jp: "失敗", ko_kr: "실패" },
        8 => Localized { key: "closed", zh_cn: "已关闭", zh_tw: "已關閉", en_us: "closed", ja_jp: "終了", ko_kr: "닫힘" },
        9 => Localized { key: "interrupted", zh_cn: "已中断", zh_tw: "已中斷", en_us: "interrupted", ja_jp: "中断", ko_kr: "중단됨" },
        10 => Localized { key: "background task started", zh_cn: "后台任务已启动", zh_tw: "背景工作已啟動", en_us: "background task started", ja_jp: "バックグラウンドタスクを開始しました", ko_kr: "백그라운드 작업 시작됨" },
        11 => Localized { key: "background task failed", zh_cn: "后台任务失败", zh_tw: "背景工作失敗", en_us: "background task failed", ja_jp: "バックグラウンドタスクに失敗しました", ko_kr: "백그라운드 작업 실패" },
        12 => Localized { key: "background task is idle", zh_cn: "后台任务未运行", zh_tw: "背景工作未執行", en_us: "background task is idle", ja_jp: "バックグラウンドタスクは待機中です", ko_kr: "백그라운드 작업 대기 중" },
        13 => Localized { key: "stopping background turn", zh_cn: "正在停止后台回合", zh_tw: "正在停止背景回合", en_us: "stopping background turn", ja_jp: "バックグラウンドターンを停止中", ko_kr: "백그라운드 턴 중지 중" },
        14 => Localized { key: "agent renamed", zh_cn: "Agent 已改名", zh_tw: "Agent 已改名", en_us: "agent renamed", ja_jp: "Agent の名前を変更しました", ko_kr: "에이전트 이름 변경됨" },
        15 => Localized { key: "resume picker is available from /resume", zh_cn: "请使用 /resume 打开会话选择器", zh_tw: "請使用 /resume 開啟工作階段選擇器", en_us: "resume picker is available from /resume", ja_jp: "/resume から再開ピッカーを開けます", ko_kr: "/resume에서 재개 선택기를 열 수 있음" },
        16 => Localized { key: "declined", zh_cn: "已拒绝", zh_tw: "已拒絕", en_us: "declined", ja_jp: "拒否", ko_kr: "거부됨" },
        17 => Localized { key: "settings updated", zh_cn: "设置已更新", zh_tw: "設定已更新", en_us: "settings updated", ja_jp: "設定を更新しました", ko_kr: "설정이 업데이트됨" },
        18 => Localized { key: "collaboration mode updated", zh_cn: "协作模式已更新", zh_tw: "協作模式已更新", en_us: "collaboration mode updated", ja_jp: "コラボレーションモードを更新しました", ko_kr: "협업 모드가 업데이트됨" },
        19 => Localized { key: "plan mode", zh_cn: "计划模式", zh_tw: "計畫模式", en_us: "plan mode", ja_jp: "計画モード", ko_kr: "계획 모드" },
        20 => Localized { key: "plan mode unavailable on this server", zh_cn: "此服务器不支持计划模式", zh_tw: "此伺服器不支援計畫模式", en_us: "plan mode unavailable on this server", ja_jp: "このサーバーでは計画モードを利用できません", ko_kr: "이 서버에서는 계획 모드를 사용할 수 없음" },
        21 => Localized { key: "switched agent", zh_cn: "已切换 Agent", zh_tw: "已切換 Agent", en_us: "switched agent", ja_jp: "Agent を切り替えました", ko_kr: "에이전트 전환됨" },
        22 => Localized { key: "sub-agent thread is parent-owned", zh_cn: "子 Agent 会话由父会话控制", zh_tw: "子 Agent 工作階段由父工作階段控制", en_us: "sub-agent thread is parent-owned", ja_jp: "サブ Agent スレッドは親が管理します", ko_kr: "하위 에이전트 스레드는 부모가 제어함" },
        23 => Localized { key: "agent switch failed", zh_cn: "切换 Agent 失败", zh_tw: "切換 Agent 失敗", en_us: "agent switch failed", ja_jp: "Agent の切り替えに失敗しました", ko_kr: "에이전트 전환 실패" },
        24 => Localized { key: "no sub-agents available", zh_cn: "暂无可用的子 Agent", zh_tw: "目前沒有可用的子 Agent", en_us: "no sub-agents available", ja_jp: "利用可能なサブ Agent がありません", ko_kr: "사용 가능한 하위 에이전트가 없음" },
        25 => Localized { key: "choose model", zh_cn: "请选择模型", zh_tw: "請選擇模型", en_us: "choose model", ja_jp: "モデルを選択", ko_kr: "모델 선택" },
        26 => Localized { key: "steering", zh_cn: "正在引导", zh_tw: "正在引導", en_us: "steering", ja_jp: "ステアリング中", ko_kr: "조정 중" },
        27 => Localized { key: "queued", zh_cn: "已排队", zh_tw: "已排隊", en_us: "queued", ja_jp: "キューに追加済み", ko_kr: "대기열에 추가됨" },
        28 => Localized { key: "queue unavailable", zh_cn: "队列不可用", zh_tw: "佇列無法使用", en_us: "queue unavailable", ja_jp: "キューを利用できません", ko_kr: "대기열을 사용할 수 없음" },
        29 => Localized { key: "queued input editing", zh_cn: "正在编辑排队输入", zh_tw: "正在編輯排隊輸入", en_us: "editing queued input", ja_jp: "キュー入力を編集中", ko_kr: "대기 입력 편집 중" },
        30 => Localized { key: "queued input unavailable", zh_cn: "排队输入已不可用", zh_tw: "排隊輸入已無法使用", en_us: "queued input unavailable", ja_jp: "キュー入力を利用できません", ko_kr: "대기 입력을 사용할 수 없음" },
        31 => Localized { key: "queue edit failed", zh_cn: "编辑排队输入失败", zh_tw: "編輯排隊輸入失敗", en_us: "queue edit failed", ja_jp: "キュー入力の編集に失敗しました", ko_kr: "대기 입력 편집 실패" },
        32 => Localized { key: "interrupting", zh_cn: "正在中断", zh_tw: "正在中斷", en_us: "interrupting", ja_jp: "中断中", ko_kr: "중단 중" },
        33 => Localized { key: "editor draft empty", zh_cn: "编辑器草稿为空", zh_tw: "編輯器草稿為空", en_us: "editor draft empty", ja_jp: "エディターの下書きが空です", ko_kr: "편집기 초안이 비어 있음" },
        34 => Localized { key: "copied last response", zh_cn: "已复制上一条回复", zh_tw: "已複製上一則回覆", en_us: "copied last response", ja_jp: "前回の応答をコピーしました", ko_kr: "마지막 응답을 복사함" },
        35 => Localized { key: "no agent response to copy", zh_cn: "没有可复制的 Agent 回复", zh_tw: "沒有可複製的 Agent 回覆", en_us: "no agent response to copy", ja_jp: "コピーできる Agent 応答がありません", ko_kr: "복사할 Agent 응답이 없음" },
        36 => Localized { key: "copy failed", zh_cn: "复制失败", zh_tw: "複製失敗", en_us: "copy failed", ja_jp: "コピーに失敗しました", ko_kr: "복사 실패" },
        37 => Localized { key: "exported conversation to clipboard", zh_cn: "已将完整对话复制到剪贴板", zh_tw: "已將完整對話複製到剪貼簿", en_us: "exported conversation to clipboard", ja_jp: "完全な会話をクリップボードにコピーしました", ko_kr: "전체 대화를 클립보드에 복사함" },
        38 => Localized { key: "exported conversation to", zh_cn: "完整对话已导出到", zh_tw: "完整對話已匯出到", en_us: "exported conversation to", ja_jp: "完全な会話をエクスポートしました", ko_kr: "전체 대화를 내보냄" },
        39 => Localized { key: "export failed", zh_cn: "导出失败", zh_tw: "匯出失敗", en_us: "export failed", ja_jp: "エクスポートに失敗しました", ko_kr: "내보내기 실패" },
        40 => Localized { key: "image attached", zh_cn: "已附加图片", zh_tw: "已附加圖片", en_us: "image attached", ja_jp: "画像を添付しました", ko_kr: "이미지 첨부됨" },
        41 => Localized { key: "image paste failed", zh_cn: "粘贴图片失败", zh_tw: "貼上圖片失敗", en_us: "image paste failed", ja_jp: "画像の貼り付けに失敗しました", ko_kr: "이미지 붙여넣기 실패" },
        42 => Localized { key: "reconnecting", zh_cn: "正在重连", zh_tw: "正在重新連線", en_us: "reconnecting", ja_jp: "再接続中", ko_kr: "재연결 중" },
        43 => Localized { key: "effort", zh_cn: "推理", zh_tw: "推理", en_us: "effort", ja_jp: "推論", ko_kr: "추론" },
        44 => Localized { key: "permissions", zh_cn: "权限", zh_tw: "權限", en_us: "permissions", ja_jp: "権限", ko_kr: "권한" },
        45 => Localized { key: "prompt history unavailable", zh_cn: "提示历史不可用", zh_tw: "提示歷史不可用", en_us: "prompt history unavailable", ja_jp: "プロンプト履歴を利用できません", ko_kr: "프롬프트 기록을 사용할 수 없음" },
        _ => Localized { key: "editor unavailable", zh_cn: "编辑器不可用", zh_tw: "編輯器不可用", en_us: "editor unavailable", ja_jp: "エディターを利用できません", ko_kr: "편집기를 사용할 수 없음" },
    }
}

/// Row `i` of the table of detail prefixes, matched at the start of a detail line.
pub open spec fn detail_row(i: int) -> Localized {
    if i == 0 {
        Localized { key: "exit ", zh_cn: "退出 ", zh_tw: "退出 ", en_us: "exit ", ja_jp: "exit ", ko_kr: "종료 " }
    } else if i == 1 {
        Localized { key: "duration ", zh_cn: "耗时 ", zh_tw: "耗時 ", en_us: "duration ", ja_jp: "所要時間 ", ko_kr: "소요 시간 " }
    } else if i == 2 {
        Localized { key: "files: ", zh_cn: "文件数：", zh_tw: "檔案數：", en_us: "files: ", ja_jp: "ファイル数: ", ko_kr: "파일 수: " }
    } else if i == 3 {
        Localized { key: "added: ", zh_cn: "新增：", zh_tw: "新增：", en_us: "added: ", ja_jp: "追加: ", ko_kr: "추가: " }
    } else if i == 4 {
        Localized { key: "deleted: ", zh_cn: "删除：", zh_tw: "刪除：", en_us: "deleted: ", ja_jp: "削除: ", ko_kr: "삭제: " }
    } else if i == 5 {
        Localized { key: "updated: ", zh_cn: "更新：", zh_tw: "更新：", en_us: "updated: ", ja_jp: "更新: ", ko_kr: "업데이트: " }
    } else if i == 6 {
        Localized { key: "result items: ", zh_cn: "结果项：", zh_tw: "結果項：", en_us: "result items: ", ja_jp: "結果項目: ", ko_kr: "결과 항목: " }
    } else if i == 7 {
        Localized { key: "content types: ", zh_cn: "内容类型：", zh_tw: "內容類型：", en_us: "content types: ", ja_jp: "コンテンツ種別: ", ko_kr: "콘텐츠 유형: " }
    } else if i == 8 {
        Localized { key: "output: ", zh_cn: "输出：", zh_tw: "輸出：", en_us: "output: ", ja_jp: "出力: ", ko_kr: "출력: " }
    } else if i == 9 {
        Localized { key: "computer action: ", zh_cn: "电脑操作：", zh_tw: "電腦操作：", en_us: "computer action: ", ja_jp: "コンピュータ操作: ", ko_kr: "컴퓨터 작업: " }
    } else if i == 10 {
        Localized { key: "computer error: ", zh_cn: "电脑错误：", zh_tw: "電腦錯誤：", en_us: "computer error: ", ja_jp: "コンピュータ エラー: ", ko_kr: "컴퓨터 오류: " }
    } else if i == 11 {
        Localized { key: "computer screenshot: ", zh_cn: "电脑截图：", zh_tw: "電腦螢幕截圖：", en_us: "computer screenshot: ", ja_jp: "コンピュータ スクリーンショット: ", ko_kr: "컴퓨터 스크린샷: " }
    } else if i == 12 {
        Localized { key: "structured content: ", zh_cn: "结构化内容：", zh_tw: "結構化內容：", en_us: "structured content: ", ja_jp: "構造化コンテンツ: ", ko_kr: "구조화 콘텐츠: " }
    } else if i == 13 {
        Localized { key: "truncated", zh_cn: "已截断", zh_tw: "已截斷", en_us: "truncated", ja_jp: "切り詰め済み", ko_kr: "잘림" }
    } else if i == 14 {
        Localized { key: "output available", zh_cn: "可获取输出", zh_tw: "可取得輸出", en_us: "output available", ja_jp: "出力を取得可能", ko_kr: "출력 사용 가능" }
    } else if i == 15 {
        Localized { key: "error: ", zh_cn: "错误：", zh_tw: "錯誤：", en_us: "error: ", ja_jp: "エラー: ", ko_kr: "오류: " }
    } else if i == 16 {
        Localized { key: "success: ", zh_cn: "成功：", zh_tw: "成功：", en_us: "success: ", ja_jp: "成功: ", ko_kr: "성공: " }
    } else if i == 17 {
        Localized { key: "content items: ", zh_cn: "内容项：", zh_tw: "內容項：", en_us: "content items: ", ja_jp: "内容項目: ", ko_kr: "콘텐츠 항목: " }
    } else if i == 18 {
        Localized { key: "agents: ", zh_cn: "Agent 数：", zh_tw: "Agent 數：", en_us: "agents: ", ja_jp: "Agent 数: ", ko_kr: "에이전트 수: " }
    } else if i == 19 {
        Localized { key: "model: ", zh_cn: "模型：", zh_tw: "模型：", en_us: "model: ", ja_jp: "モデル: ", ko_kr: "모델: " }
    } else if i == 20 {
        Localized { key: "effort: ", zh_cn: "思考强度：", zh_tw: "思考強度：", en_us: "effort: ", ja_jp: "推論強度: ", ko_kr: "추론 강도: " }
    } else if i == 21 {
        Localized { key: "prompt: ", zh_cn: "提示词：", zh_tw: "提示詞：", en_us: "prompt: ", ja_jp: "プロンプト: ", ko_kr: "프롬프트: " }
    } else if i == 22 {
        Localized { key: "web search: ", zh_cn: "网页搜索：", zh_tw: "網頁搜尋：", en_us: "web search: ", ja_jp: "ウェブ検索: ", ko_kr: "웹 검색: " }
    } else if i == 23 {
        Localized { key: "hook completed", zh_cn: "Hook 已完成", zh_tw: "Hook 已完成", en_us: "hook completed", ja_jp: "Hook 完了", ko_kr: "Hook 완료" }
    } else if i == 24 {
        Localized { key: "hook failed", zh_cn: "Hook 失败", zh_tw: "Hook 失敗", en_us: "hook failed", ja_jp: "Hook 失敗", ko_kr: "Hook 실패" }
    } else if i == 25 {
        Localized { key: "hook blocked", zh_cn: "Hook 已阻断", zh_tw: "Hook 已封鎖", en_us: "hook blocked", ja_jp: "Hook がブロックされました", ko_kr: "Hook 차단됨" }
    } else if i == 26 {
        Localized { key: "hook stopped", zh_cn: "Hook 已停止", zh_tw: "Hook 已停止", en_us: "hook stopped", ja_jp: "Hook 停止", ko_kr: "Hook 중지됨" }
    } else if i == 27 {
        Localized { key: "hook output: ", zh_cn: "Hook 输出：", zh_tw: "Hook 輸出：", en_us: "hook output: ", ja_jp: "Hook 出力: ", ko_kr: "Hook 출력: " }
    } else if i == 28 {
        Localized { key: "searching the web", zh_cn: "正在搜索网页", zh_tw: "正在搜尋網頁", en_us: "searching the web", ja_jp: "ウェブを検索中", ko_kr: "웹 검색 중" }
    } else if i == 29 {
        Localized { key: "searched the web for ", zh_cn: "已搜索网页：", zh_tw: "已搜尋網頁：", en_us: "searched the web for ", ja_jp: "ウェブ検索済み：", ko_kr: "웹 검색 완료: " }
    } else if i == 30 {
        Localized { key: "searched the web", zh_cn: "已搜索网页", zh_tw: "已搜尋網頁", en_us: "searched the web", ja_jp: "ウェブ検索済み", ko_kr: "웹 검색 완료" }
    } else if i == 31 {
        Localized { key: "view image: ", zh_cn: "查看图片：", zh_tw: "檢視圖片：", en_us: "view image: ", ja_jp: "画像を表示: ", ko_kr: "이미지 보기: " }
    } else if i == 32 {
        Localized { key: "result: ", zh_cn: "结果：", zh_tw: "結果：", en_us: "result: ", ja_jp: "結果: ", ko_kr: "결과: " }
    } else if i == 33 {
        Localized { key: "saved: ", zh_cn: "已保存：", zh_tw: "已儲存：", en_us: "saved: ", ja_jp: "保存済み: ", ko_kr: "저장됨: " }
    } else if i == 34 {
        Localized { key: "revised prompt: ", zh_cn: "修订提示：", zh_tw: "修訂提示：", en_us: "revised prompt: ", ja_jp: "修正プロンプト: ", ko_kr: "수정된 프롬프트: " }
    } else if i == 35 {
        Localized { key: "review started: ", zh_cn: "审查开始：", zh_tw: "審查開始：", en_us: "review started: ", ja_jp: "レビュー開始: ", ko_kr: "검토 시작: " }
    } else if i == 36 {
        Localized { key: "review completed: ", zh_cn: "审查完成：", zh_tw: "審查完成：", en_us: "review completed: ", ja_jp: "レビュー完成: ", ko_kr: "검토 완료: " }
    } else if i == 37 {
        Localized { key: "context compacted", zh_cn: "上下文已压缩", zh_tw: "內容已壓縮", en_us: "context compacted", ja_jp: "コンテキストを圧縮しました", ko_kr: "컨텍스트가 압축됨" }
    } else if i == 38 {
        Localized { key: "image generation", zh_cn: "图片生成", zh_tw: "圖片生成", en_us: "image generation", ja_jp: "画像生成", ko_kr: "이미지 생성" }
    } else if i == 39 {
        Localized { key: "unsupported item: ", zh_cn: "不支持的条目：", zh_tw: "不支援的項目：", en_us: "unsupported item: ", ja_jp: "未対応項目: ", ko_kr: "지원되지 않는 항목: " }
    } else if i == 40 {
        Localized { key: "pending: ", zh_cn: "待处理：", zh_tw: "待處理：", en_us: "pending: ", ja_jp: "保留中: ", ko_kr: "대기 중: " }
    } else if i == 41 {
        Localized { key: "running: ", zh_cn: "运行中：", zh_tw: "執行中：", en_us: "running: ", ja_jp: "実行中: ", ko_kr: "실행 중: " }
    } else if i == 42 {
        Localized { key: "interrupted: ", zh_cn: "已中断：", zh_tw: "已中斷：", en_us: "interrupted: ", ja_jp: "中断: ", ko_kr: "중단됨: " }
    } else if i == 43 {
        Localized { key: "completed: ", zh_cn: "已完成：", zh_tw: "已完成：", en_us: "completed: ", ja_jp: "完了: ", ko_kr: "완료: " }
    } else if i == 44 {
        Localized { key: "errored: ", zh_cn: "出错：", zh_tw: "發生錯誤：", en_us: "errored: ", ja_jp: "エラー: ", ko_kr: "오류: " }
    } else if i == 45 {
        Localized { key: "shutdown: ", zh_cn: "已关闭：", zh_tw: "已關閉：", en_us: "shutdown: ", ja_jp: "シャットダウン: ", ko_kr: "종료됨: " }
    } else {
        Localized { key: "not-found: ", zh_cn: "未找到：", zh_tw: "找不到：", en_us: "not-found: ", ja_jp: "見つかりません: ", ko_kr: "찾을 수 없음: " }
    }
}

fn detail_row_at(i: usize) -> (r: Localized)
    requires
        i < 47,
    ensures
        r == detail_row(i as int),
{
    match i {
        0 => Localized { key: "exit ", zh_cn: "退出 ", zh_tw: "退出 ", en_us: "exit ", ja_jp: "exit ", ko_kr: "종료 " },
        1 => Localized { key: "duration ", zh_cn: "耗时 ", zh_tw: "耗時 ", en_us: "duration ", ja_jp: "所要時間 ", ko_kr: "소요 시간 " },
        2 => Localized { key: "files: ", zh_cn: "文件数：", zh_tw: "檔案數：", en_us: "files: ", ja_jp: "ファイル数: ", ko_kr: "파일 수: " },
        3 => Localized { key: "added: ", zh_cn: "新增：", zh_tw: "新增：", en_us: "added: ", ja_jp: "追加: ", ko_kr: "추가: " },
        4 => Localized { key: "deleted: ", zh_cn: "删除：", zh_tw: "刪除：", en_us: "deleted: ", ja_jp: "削除: ", ko_kr: "삭제: " },
        5 => Localized { key: "updated: ", zh_cn: "更新：", zh_tw: "更新：", en_us: "updated: ", ja_jp: "更新: ", ko_kr: "업데이트: " },
        6 => Localized { key: "result items: ", zh_cn: "结果项：", zh_tw: "結果項：", en_us: "result items: ", ja_jp: "結果項目: ", ko_kr: "결과 항목: " },
        7 => Localized { key: "content types: ", zh_cn: "内容类型：", zh_tw: "內容類型：", en_us: "content types: ", ja_jp: "コンテンツ種別: ", ko_kr: "콘텐츠 유형: " },
        8 => Localized { key: "output: ", zh_cn: "输出：", zh_tw: "輸出：", en_us: "output: ", ja_jp: "出力: ", ko_kr: "출력: " },
        9 => Localized { key: "computer action: ", zh_cn: "电脑操作：", zh_tw: "電腦操作：", en_us: "computer action: ", ja_jp: "コンピュータ操作: ", ko_kr: "컴퓨터 작업: " },
        10 => Localized { key: "computer error: ", zh_cn: "电脑错误：", zh_tw: "電腦錯誤：", en_us: "computer error: ", ja_jp: "コンピュータ エラー: ", ko_kr: "컴퓨터 오류: " },
        11 => Localized { key: "computer screenshot: ", zh_cn: "电脑截图：", zh_tw: "電腦螢幕截圖：", en_us: "computer screenshot: ", ja_jp: "コンピュータ スクリーンショット: ", ko_kr: "컴퓨터 스크린샷: " },
        12 => Localized { key: "structured content: ", zh_cn: "结构化内容：", zh_tw: "結構化內容：", en_us: "structured content: ", ja_jp: "構造化コンテンツ: ", ko_kr: "구조화 콘텐츠: " },
        13 => Localized { key: "truncated", zh_cn: "已截断", zh_tw: "已截斷", en_us: "truncated", ja_jp: "切り詰め済み", ko_kr: "잘림" },
        14 => Localized { key: "output available", zh_cn: "可获取输出", zh_tw: "可取得輸出", en_us: "output available", ja_jp: "出力を取得可能", ko_kr: "출력 사용 가능" },
        15 => Localized { key: "error: ", zh_cn: "错误：", zh_tw: "錯誤：", en_us: "error: ", ja_jp: "エラー: ", ko_kr: "오류: " },
        16 => Localized { key: "success: ", zh_cn: "成功：", zh_tw: "成功：", en_us: "success: ", ja_jp: "成功: ", ko_kr: "성공: " },
        17 => Localized { key: "content items: ", zh_cn: "内容项：", zh_tw: "內容項：", en_us: "content items: ", ja_jp: "内容項目: ", ko_kr: "콘텐츠 항목: " },
        18 => Localized { key: "agents: ", zh_cn: "Agent 数：", zh_tw: "Agent 數：", en_us: "agents: ", ja_jp: "Agent 数: ", ko_kr: "에이전트 수: " },
        19 => Localized { key: "model: ", zh_cn: "模型：", zh_tw: "模型：", en_us: "model: ", ja_jp: "モデル: ", ko_kr: "모델: " },
        20 => Localized { key: "effort: ", zh_cn: "思考强度：", zh_tw: "思考強度：", en_us: "effort: ", ja_jp: "推論強度: ", ko_kr: "추론 강도: " },
        21 => Localized { key: "prompt: ", zh_cn: "提示词：", zh_tw: "提示詞：", en_us: "prompt: ", ja_jp: "プロンプト: ", ko_kr: "프롬프트: " },
        22 => Localized { key: "web search: ", zh_cn: "网页搜索：", zh_tw: "網頁搜尋：", en_us: "web search: ", ja_jp: "ウェブ検索: ", ko_kr: "웹 검색: " },
        23 => Localized { key: "hook completed", zh_cn: "Hook 已完成", zh_tw: "Hook 已完成", en_us: "hook completed", ja_jp: "Hook 完了", ko_kr: "Hook 완료" },
        24 => Localized { key: "hook failed", zh_cn: "Hook 失败", zh_tw: "Hook 失敗", en_us: "hook failed", ja_jp: "Hook 失敗", ko_kr: "Hook 실패" },
        25 => Localized { key: "hook blocked", zh_cn: "Hook 已阻断", zh_tw: "Hook 已封鎖", en_us: "hook blocked", ja_jp: "Hook がブロックされました", ko_kr: "Hook 차단됨" },
        26 => Localized { key: "hook stopped", zh_cn: "Hook 已停止", zh_tw: "Hook 已停止", en_us: "hook stopped", ja_jp: "Hook 停止", ko_kr: "Hook 중지됨" },
        27 => Localized { key: "hook output: ", zh_cn: "Hook 输出：", zh_tw: "Hook 輸出：", en_us: "hook output: ", ja_jp: "Hook 出力: ", ko_kr: "Hook 출력: " },
        28 => Localized { key: "searching the web", zh_cn: "正在搜索网页", zh_tw: "正在搜尋網頁", en_us: "searching the web", ja_jp: "ウェブを検索中", ko_kr: "웹 검색 중" },
        29 => Localized { key: "searched the web for ", zh_cn: "已搜索网页：", zh_tw: "已搜尋網頁：", en_us: "searched the web for ", ja_jp: "ウェブ検索済み：", ko_kr: "웹 검색 완료: " },
        30 => Localized { key: "searched the web", zh_cn: "已搜索网页", zh_tw: "已搜尋網頁", en_us: "searched the web", ja_jp: "ウェブ検索済み", ko_kr: "웹 검색 완료" },
        31 => Localized { key: "view image: ", zh_cn: "查看图片：", zh_tw: "檢視圖片：", en_us: "view image: ", ja_jp: "画像を表示: ", ko_kr: "이미지 보기: " },
        32 => Localized { key: "result: ", zh_cn: "结果：", zh_tw: "結果：", en_us: "result: ", ja_jp: "結果: ", ko_kr: "결과: " },
        33 => Localized { key: "saved: ", zh_cn: "已保存：", zh_tw: "已儲存：", en_us: "saved: ", ja_jp: "保存済み: ", ko_kr: "저장됨: " },
        34 => Localized { key: "revised prompt: ", zh_cn: "修订提示：", zh_tw: "修訂提示：", en_us: "revised prompt: ", ja_jp: "修正プロンプト: ", ko_kr: "수정된 프롬프트: " },
        35 => Localized { key: "review started: ", zh_cn: "审查开始：", zh_tw: "審查開始：", en_us: "review started: ", ja_jp: "レビュー開始: ", ko_kr: "검토 시작: " },
        36 => Localized { key: "review completed: ", zh_cn: "审查完成：", zh_tw: "審查完成：", en_us: "review completed: ", ja_jp: "レビュー完成: ", ko_kr: "검토 완료: " },
        37 => Localized { key: "context compacted", zh_cn: "上下文已压缩", zh_tw: "內容已壓縮", en_us: "context compacted", ja_jp: "コンテキストを圧縮しました", ko_kr: "컨텍스트가 압축됨" },
        38 => Localized { key: "image generation", zh_cn: "图片生成", zh_tw: "圖片生成", en_us: "image generation", ja_jp: "画像生成", ko_kr: "이미지 생성" },
        39 => Localized { key: "unsupported item: ", zh_cn: "不支持的条目：", zh_tw: "不支援的項目：", en_us: "unsupported item: ", ja_jp: "未対応項目: ", ko_kr: "지원되지 않는 항목: " },
        40 => Localized { key: "pending: ", zh_cn: "待处理：", zh_tw: "待處理：", en_us: "pending: ", ja_jp: "保留中: ", ko_kr: "대기 중: " },
        41 => Localized { key: "running: ", zh_cn: "运行中：", zh_tw: "執行中：", en_us: "running: ", ja_jp: "実行中: ", ko_kr: "실행 중: " },
        42 => Localized { key: "interrupted: ", zh_cn: "已中断：", zh_tw: "已中斷：", en_us: "interrupted: ", ja_jp: "中断: ", ko_kr: "중단됨: " },
        43 => Localized { key: "completed: ", zh_cn: "已完成：", zh_tw: "已完成：", en_us: "completed: ", ja_jp: "完了: ", ko_kr: "완료: " },
        44 => Localized { key: "errored: ", zh_cn: "出错：", zh_tw: "發生錯誤：", en_us: "errored: ", ja_jp: "エラー: ", ko_kr: "오류: " },
        45 => Localized { key: "shutdown: ", zh_cn: "已关闭：", zh_tw: "已關閉：", en_us: "shutdown: ", ja_jp: "シャットダウン: ", ko_kr: "종료됨: " },
        _ => Localized { key: "not-found: ", zh_cn: "未找到：", zh_tw: "找不到：", en_us: "not-found: ", ja_jp: "見つかりません: ", ko_kr: "찾을 수 없음: " },
    }
}

/// Row `i` of the table of sub-agent event prefixes, matched at the start of an event title.
pub open spec fn multi_agent_row(i: int) -> Localized {
    if i == 0 {
        Localized { key: "Spawned ", zh_cn: "已启动 ", zh_tw: "已啟動 ", en_us: "Spawned ", ja_jp: "起動: ", ko_kr: "생성됨 " }
    } else if i == 1 {
        Localized { key: "Sent input to ", zh_cn: "已向其发送输入 ", zh_tw: "已向其傳送輸入 ", en_us: "Sent input to ", ja_jp: "入力送信: ", ko_kr: "입력 전송: " }
    } else if i == 2 {
        Localized { key: "Resuming ", zh_cn: "正在恢复 ", zh_tw: "正在恢復 ", en_us: "Resuming ", ja_jp: "再開中: ", ko_kr: "재개 중: " }
    } else if i == 3 {
        Localized { key: "Resumed ", zh_cn: "已恢复 ", zh_tw: "已恢復 ", en_us: "Resumed ", ja_jp: "再開済み: ", ko_kr: "재개됨 " }
    } else if i == 4 {
        Localized { key: "Waiting for ", zh_cn: "正在等待 ", zh_tw: "正在等待 ", en_us: "Waiting for ", ja_jp: "待機中: ", ko_kr: "대기 중: " }
    } else if i == 5 {
        Localized { key: "Closed ", zh_cn: "已关闭 ", zh_tw: "已關閉 ", en_us: "Closed ", ja_jp: "終了: ", ko_kr: "닫힘 " }
    } else if i == 6 {
        Localized { key: "Started ", zh_cn: "已开始 ", zh_tw: "已開始 ", en_us: "Started ", ja_jp: "開始: ", ko_kr: "시작됨 " }
    } else if i == 7 {
        Localized { key: "Interacted with ", zh_cn: "已与其交互 ", zh_tw: "已與其互動 ", en_us: "Interacted with ", ja_jp: "操作: ", ko_kr: "상호작용: " }
    } else {
        Localized { key: "Interrupted ", zh_cn: "已中断 ", zh_tw: "已中斷 ", en_us: "Interrupted ", ja_jp: "中断: ", ko_kr: "중단됨 " }
    }
}

fn multi_agent_row_at(i: usize) -> (r: Localized)
    requires
        i < 9,
    ensures
        r == multi_agent_row(i as int),
{
    match i {
        0 => Localized { key: "Spawned ", zh_cn: "已启动 ", zh_tw: "已啟動 ", en_us: "Spawned ", ja_jp: "起動: ", ko_kr: "생성됨 " },
        1 => Localized { key: "Sent input to ", zh_cn: "已向其发送输入 ", zh_tw: "已向其傳送輸入 ", en_us: "Sent input to ", ja_jp: "入力送信: ", ko_kr: "입력 전송: " },
        2 => Localized { key: "Resuming ", zh_cn: "正在恢复 ", zh_tw: "正在恢復 ", en_us: "Resuming ", ja_jp: "再開中: ", ko_kr: "재개 중: " },
        3 => Localized { key: "Resumed ", zh_cn: "已恢复 ", zh_tw: "已恢復 ", en_us: "Resumed ", ja_jp: "再開済み: ", ko_kr: "재개됨 " },
        4 => Localized { key: "Waiting for ", zh_cn: "正在等待 ", zh_tw: "正在等待 ", en_us: "Waiting for ", ja_jp: "待機中: ", ko_kr: "대기 중: " },
        5 => Localized { key: "Closed ", zh_cn: "已关闭 ", zh_tw: "已關閉 ", en_us: "Closed ", ja_jp: "終了: ", ko_kr: "닫힘 " },
        6 => Localized { key: "Started ", zh_cn: "已开始 ", zh_tw: "已開始 ", en_us: "Started ", ja_jp: "開始: ", ko_kr: "시작됨 " },
        7 => Localized { key: "Interacted with ", zh_cn: "已与其交互 ", zh_tw: "已與其互動 ", en_us: "Interacted with ", ja_jp: "操作: ", ko_kr: "상호작용: " },
        _ => Localized { key: "Interrupted ", zh_cn: "已中断 ", zh_tw: "已中斷 ", en_us: "Interrupted ", ja_jp: "中断: ", ko_kr: "중단됨 " },
    }
}

/// Row `i` of the table of approval option labels.
pub open spec fn approval_option_row(i: int) -> Localized {
    if i == 0 {
        Localized { key: "Accept", zh_cn: "批准", zh_tw: "核准", en_us: "Accept", ja_jp: "承認", ko_kr: "승인" }
    } else if i == 1 {
        Localized { key: "Decline", zh_cn: "拒绝", zh_tw: "拒絕", en_us: "Decline", ja_jp: "拒否", ko_kr: "거부" }
    } else if i == 2 {
        Localized { key: "Cancel", zh_cn: "取消", zh_tw: "取消", en_us: "Cancel", ja_jp: "キャンセル", ko_kr: "취소" }
    } else if i == 3 {
        Localized { key: "Allow once", zh_cn: "允许一次", zh_tw: "允許一次", en_us: "Allow once", ja_jp: "一度だけ許可", ko_kr: "한 번 허용" }
    } else if i == 4 {
        Localized { key: "Allow for this session", zh_cn: "允许本会话", zh_tw: "允許本工作階段", en_us: "Allow for this session", ja_jp: "このセッションで許可", ko_kr: "이 세션에 허용" }
    } else if i == 5 {
        Localized { key: "Cancel turn", zh_cn: "取消本回合", zh_tw: "取消本回合", en_us: "Cancel turn", ja_jp: "ターンをキャンセル", ko_kr: "턴 취소" }
    } else if i == 6 {
        Localized { key: "Grant for this turn", zh_cn: "仅授予本回合", zh_tw: "僅授予本回合", en_us: "Grant for this turn", ja_jp: "このターンのみ許可", ko_kr: "이 턴에만 허용" }
    } else {
        Localized { key: "Grant for this session", zh_cn: "授予本会话", zh_tw: "授予本工作階段", en_us: "Grant for this session", ja_jp: "このセッションで許可", ko_kr: "이 세션에 허용" }
    }
}

fn approval_option_row_at(i: usize) -> (r: Localized)
    requires
        i < 8,
    ensures
        r == approval_option_row(i as int),
{
    match i {
        0 => Localized { key: "Accept", zh_cn: "批准", zh_tw: "核准", en_us: "Accept", ja_jp: "承認", ko_kr: "승인" },
        1 => Localized { key: "Decline", zh_cn: "拒绝", zh_tw: "拒絕", en_us: "Decline", ja_jp: "拒否", ko_kr: "거부" },
        2 => Localized { key: "Cancel", zh_cn: "取消", zh_tw: "取消", en_us: "Cancel", ja_jp: "キャンセル", ko_kr: "취소" },
        3 => Localized { key: "Allow once", zh_cn: "允许一次", zh_tw: "允許一次", en_us: "Allow once", ja_jp: "一度だけ許可", ko_kr: "한 번 허용" },
        4 => Localized { key: "Allow for this session", zh_cn: "允许本会话", zh_tw: "允許本工作階段", en_us: "Allow for this session", ja_jp: "このセッションで許可", ko_kr: "이 세션에 허용" },
        5 => Localized { key: "Cancel turn", zh_cn: "取消本回合", zh_tw: "取消本回合", en_us: "Cancel turn", ja_jp: "ターンをキャンセル", ko_kr: "턴 취소" },
        6 => Localized { key: "Grant for this turn", zh_cn: "仅授予本回合", zh_tw: "僅授予本回合", en_us: "Grant for this turn", ja_jp: "このターンのみ許可", ko_kr: "이 턴에만 허용" },
        _ => Localized { key: "Grant for this session", zh_cn: "授予本会话", zh_tw: "授予本工作階段", en_us: "Grant for this session", ja_jp: "このセッションで許可", ko_kr: "이 세션에 허용" },
    }
}

/// Row `i` of the table of mCP approval choice labels, looked up by their wire value.
pub open spec fn mcp_approval_row(i: int) -> Localized {
    if i == 0 {
        Localized { key: "accept", zh_cn: "允许", zh_tw: "允許", en_us: "Allow", ja_jp: "許可", ko_kr: "허용" }
    } else if i == 1 {
        Localized { key: "accept_session", zh_cn: "允许本次会话", zh_tw: "允許此工作階段", en_us: "Allow for this session", ja_jp: "このセッションで許可", ko_kr: "이 세션에서 허용" }
    } else if i == 2 {
        Localized { key: "accept_always", zh_cn: "始终允许", zh_tw: "一律允許", en_us: "Always allow", ja_jp: "常に許可", ko_kr: "항상 허용" }
    } else if i == 3 {
        Localized { key: "decline", zh_cn: "拒绝", zh_tw: "拒絕", en_us: "Deny", ja_jp: "拒否", ko_kr: "거부" }
    } else {
        Localized { key: "cancel", zh_cn: "取消", zh_tw: "取消", en_us: "Cancel", ja_jp: "キャンセル", ko_kr: "취소" }
    }
}

fn mcp_approval_row_at(i: usize) -> (r: Localized)
    requires
        i < 5,
    ensures
        r == mcp_approval_row(i as int),
{
    match i {
        0 => Localized { key: "accept", zh_cn: "允许", zh_tw: "允許", en_us: "Allow", ja_jp: "許可", ko_kr: "허용" },
        1 => Localized { key: "accept_session", zh_cn: "允许本次会话", zh_tw: "允許此工作階段", en_us: "Allow for this session", ja_jp: "このセッションで許可", ko_kr: "이 세션에서 허용" },
        2 => Localized { key: "accept_always", zh_cn: "始终允许", zh_tw: "一律允許", en_us: "Always allow", ja_jp: "常に許可", ko_kr: "항상 허용" },
        3 => Localized { key: "decline", zh_cn: "拒绝", zh_tw: "拒絕", en_us: "Deny", ja_jp: "拒否", ko_kr: "거부" },
        _ => Localized { key: "cancel", zh_cn: "取消", zh_tw: "取消", en_us: "Cancel", ja_jp: "キャンセル", ko_kr: "취소" },
    }
}

/// Row `i` of the table of agent overview group names.
pub open spec fn agent_group_row(i: int) -> Localized {
    if i == 0 {
        Localized { key: "need input", zh_cn: "需要输入", zh_tw: "需要輸入", en_us: "need input", ja_jp: "入力待ち", ko_kr: "입력 필요" }
    } else if i == 1 {
        Localized { key: "working", zh_cn: "运行中", zh_tw: "執行中", en_us: "working", ja_jp: "実行中", ko_kr: "작업 중" }
    } else if i == 2 {
        Localized { key: "ready", zh_cn: "就绪", zh_tw: "就緒", en_us: "ready", ja_jp: "準備完了", ko_kr: "준비됨" }
    } else {
        Localized { key: "finished", zh_cn: "已完成", zh_tw: "已完成", en_us: "finished", ja_jp: "完了", ko_kr: "완료" }
    }
}

fn agent_group_row_at(i: usize) -> (r: Localized)
    requires
        i < 4,
    ensures
        r == agent_group_row(i as int),
{
    match i {
        0 => Localized { key: "need input", zh_cn: "需要输入", zh_tw: "需要輸入", en_us: "need input", ja_jp: "入力待ち", ko_kr: "입력 필요" },
        1 => Localized { key: "working", zh_cn: "运行中", zh_tw: "執行中", en_us: "working", ja_jp: "実行中", ko_kr: "작업 중" },
        2 => Localized { key: "ready", zh_cn: "就绪", zh_tw: "就緒", en_us: "ready", ja_jp: "準備完了", ko_kr: "준비됨" },
        _ => Localized { key: "finished", zh_cn: "已完成", zh_tw: "已完成", en_us: "finished", ja_jp: "完了", ko_kr: "완료" },
    }
}

/// Row `i` of the table of conversation thread states.
pub open spec fn thread_state_row(i: int) -> Localized {
    if i == 0 {
        Localized { key: "active", zh_cn: "活动", zh_tw: "使用中", en_us: "active", ja_jp: "アクティブ", ko_kr: "활성" }
    } else if i == 1 {
        Localized { key: "idle", zh_cn: "空闲", zh_tw: "閒置", en_us: "idle", ja_jp: "アイドル", ko_kr: "유휴" }
    } else if i == 2 {
        Localized { key: "not loaded", zh_cn: "未加载", zh_tw: "未載入", en_us: "not loaded", ja_jp: "未読込", ko_kr: "로드되지 않음" }
    } else {
        Localized { key: "error", zh_cn: "错误", zh_tw: "錯誤", en_us: "error", ja_jp: "エラー", ko_kr: "오류" }
    }
}

fn thread_state_row_at(i: usize) -> (r: Localized)
    requires
        i < 4,
    ensures
        r == thread_state_row(i as int),
{
    match i {
        0 => Localized { key: "active", zh_cn: "活动", zh_tw: "使用中", en_us: "active", ja_jp: "アクティブ", ko_kr: "활성" },
        1 => Localized { key: "idle", zh_cn: "空闲", zh_tw: "閒置", en_us: "idle", ja_jp: "アイドル", ko_kr: "유휴" },
        2 => Localized { key: "not loaded", zh_cn: "未加载", zh_tw: "未載入", en_us: "not loaded", ja_jp: "未読込", ko_kr: "로드되지 않음" },
        _ => Localized { key: "error", zh_cn: "错误", zh_tw: "錯誤", en_us: "error", ja_jp: "エラー", ko_kr: "오류" },
    }
}

} // verus!
