//! Model isteğinin kararları: gövdedeki reasoning ve bütçe alanları, cevaptan içeriğin
//! seçilmesi, yeniden deneme ve token sayacı.
use vstd::prelude::*;
use crate::akis::DusunmeKip;
use crate::ayarlar::{AI_YENIDEN_DENEME, REASONING_BUTCE_TABANI, REASONING_ZORUNLU_TABAN};
use crate::metin::{basla, icerir, iceriyor, karakterler, kirp, kirp_sinir, metin_yap};
use crate::yardimci::{
    ekle_metin, json_ayikla, json_ayikla_spec, kirp_hata, kirp_hata_spec, kucuk_harf_metni,
    kucuk_harfe_cevir, reasoning_zorunlu_hatasi, reasoning_zorunlu_spec,
};

verus! {

broadcast use vstd::string::group_string_axioms;

// ---------- gövde ----------

/// Gövdedeki `reasoning` alanının değeri.
#[derive(Clone, Copy, Debug, PartialEq, Eq, Structural)]
pub enum ReasoningAlani {
    /// `{"enabled": false}`
    Kapali,
    /// `{"effort": "low"}`
    DusukEfor,
}

/// İstek gövdesinin kararların okuyup yazdığı alanları; gövdenin geri kalanı (mesajlar)
/// bunlara dokunulmadan gider.
pub struct IstekAyarlari {
    pub model: Option<String>,
    /// `max_tokens`; yoksa çağrı bütçesizdir.
    pub max_tokens: Option<u64>,
    pub reasoning: Option<ReasoningAlani>,
    pub enable_thinking: Option<bool>,
}

/// Adres (küçük harfle) bir parçayı içeriyor mu.
pub open spec fn adreste(adres: Seq<char>, parca: Seq<char>) -> bool {
    icerir(kucuk_harf_metni(adres), parca)
}

fn adreste_mi(adres: &str, parca: &str) -> (r: bool)
    ensures
        r == adreste(adres@, parca@),
{
    let k = kucuk_harfe_cevir(adres);
    iceriyor(&karakterler(k.as_str()), &karakterler(parca))
}

/// Düşünme kapalıysa (ya da her durumda isteniyorsa) model reasoning üretmesin diye
/// gövdeye alan eklenir: OpenRouter `reasoning`, Mistral dışındaki diğerleri
/// `enable_thinking` anlar, Mistral'de düğme yoktur. Alan eklendiyse true döner.
pub fn reasoning_kapat(ayar: &mut IstekAyarlari, kip: DusunmeKip, api_adres: &str, herhalukarda: bool) -> (r:
    bool)
    ensures
        ({
            let istenir = herhalukarda || kip == DusunmeKip::Kapali;
            let openrouter = adreste(api_adres@, "openrouter"@);
            let mistral = adreste(api_adres@, "mistral"@);
            &&& r == (istenir && (openrouter || !mistral))
            &&& final(ayar).reasoning == (if istenir && openrouter {
                Some(ReasoningAlani::Kapali)
            } else {
                old(ayar).reasoning
            })
            &&& final(ayar).enable_thinking == (if istenir && !openrouter && !mistral {
                Some(false)
            } else {
                old(ayar).enable_thinking
            })
        }),
        final(ayar).max_tokens == old(ayar).max_tokens,
        final(ayar).model == old(ayar).model,
{
    if !herhalukarda && kip != DusunmeKip::Kapali {
        return false;
    }
    if adreste_mi(api_adres, "openrouter") {
        ayar.reasoning = Some(ReasoningAlani::Kapali);
    } else if !adreste_mi(api_adres, "mistral") {
        ayar.enable_thinking = Some(false);
    } else {
        return false;
    }
    true
}

/// `reasoning_kapat`'ın eklediği alanlar geri alınır.
pub fn reasoning_alanlarini_kaldir(ayar: &mut IstekAyarlari)
    ensures
        final(ayar).reasoning is None,
        final(ayar).enable_thinking is None,
        final(ayar).max_tokens == old(ayar).max_tokens,
        final(ayar).model == old(ayar).model,
{
    ayar.reasoning = None;
    ayar.enable_thinking = None;
}

/// OpenRouter'a gidiyorsa reasoning kapatılamasa da kısa düşünülmesi istenir; başka
/// adrese alan eklenmez.
pub fn reasoning_dusuk_efor(ayar: &mut IstekAyarlari, api_adres: &str)
    ensures
        final(ayar).reasoning == (if adreste(api_adres@, "openrouter"@) {
            Some(ReasoningAlani::DusukEfor)
        } else {
            old(ayar).reasoning
        }),
        final(ayar).enable_thinking == old(ayar).enable_thinking,
        final(ayar).max_tokens == old(ayar).max_tokens,
        final(ayar).model == old(ayar).model,
{
    if adreste_mi(api_adres, "openrouter") {
        ayar.reasoning = Some(ReasoningAlani::DusukEfor);
    }
}

/// `max_tokens` tabanın altındaysa tabana yükseltilir; bütçesiz çağrıya dokunulmaz.
/// Değiştiyse true döner.
pub fn butce_tabanini_uygula(ayar: &mut IstekAyarlari, taban: u32) -> (r: bool)
    ensures
        r == (old(ayar).max_tokens matches Some(m) && (m as u32) < taban),
        final(ayar).max_tokens == (if r {
            Some(taban as u64)
        } else {
            old(ayar).max_tokens
        }),
        final(ayar).reasoning == old(ayar).reasoning,
        final(ayar).enable_thinking == old(ayar).enable_thinking,
        final(ayar).model == old(ayar).model,
{
    match ayar.max_tokens {
        Some(m) => {
            if (m as u32) < taban {
                ayar.max_tokens = Some(taban as u64);
                true
            } else {
                false
            }
        },
        None => false,
    }
}

/// Reasoning kapatılamayan modelde bütçe büyütülür: iki katına (taşmadan), en az tabana.
/// Bütçesiz çağrıya ya da büyümeyecekse dokunulmaz; büyüdüyse yeni değer döner.
pub open spec fn buyutulmus(mevcut: u32, taban: u32) -> int {
    let iki = if 2 * mevcut > u32::MAX {
        u32::MAX as int
    } else {
        2 * mevcut
    };
    if iki >= taban {
        iki
    } else {
        taban as int
    }
}

pub fn butce_buyut(ayar: &mut IstekAyarlari, taban: u32) -> (r: Option<u32>)
    ensures
        match old(ayar).max_tokens {
            None => r is None,
            Some(m) => {
                let yeni = buyutulmus(m as u32, taban);
                if yeni <= (m as u32) {
                    r is None
                } else {
                    r == Some(yeni as u32)
                }
            },
        },
        final(ayar).max_tokens == (match r {
            Some(y) => Some(y as u64),
            None => old(ayar).max_tokens,
        }),
        final(ayar).reasoning == old(ayar).reasoning,
        final(ayar).enable_thinking == old(ayar).enable_thinking,
        final(ayar).model == old(ayar).model,
{
    let mevcut = match ayar.max_tokens {
        Some(m) => m as u32,
        None => return None,
    };
    let iki: u32 = if mevcut > u32::MAX / 2 {
        u32::MAX
    } else {
        mevcut * 2
    };
    let yeni = if iki >= taban {
        iki
    } else {
        taban
    };
    if yeni <= mevcut {
        return None;
    }
    ayar.max_tokens = Some(yeni as u64);
    Some(yeni)
}

// ---------- cevabın içeriği ----------

/// Modelin cevap mesajı: içerik ve (reasoning modellerde) düşünce alanları.
pub struct Icerik {
    pub content: Option<String>,
    pub reasoning: Option<String>,
    pub reasoning_content: Option<String>,
}

/// JSON bekleyen çağrı türleri: içerik boşsa düşüncedeki JSON bloğu içerik sayılır.
pub open spec fn json_kategorisi(k: Seq<char>) -> bool {
    k == "gunlukcu"@ || k == "isteklilik"@ || k == "hedef_sec"@ || k == "ruh_hali"@ || k
        == "uyanis"@
}

fn json_kategorisi_mi(k: &str) -> (r: bool)
    ensures
        r == json_kategorisi(k@),
{
    let v = karakterler(k);
    crate::metin::ayni_dizi(&v, &karakterler("gunlukcu")) || crate::metin::ayni_dizi(
        &v,
        &karakterler("isteklilik"),
    ) || crate::metin::ayni_dizi(&v, &karakterler("hedef_sec")) || crate::metin::ayni_dizi(
        &v,
        &karakterler("ruh_hali"),
    ) || crate::metin::ayni_dizi(&v, &karakterler("uyanis"))
}

/// `serde_json::from_str::<serde_json::Value>`'in metni kabul edip etmediği.
pub uninterp spec fn json_gecerli(metin: Seq<char>) -> bool;

/// `serde_json::from_str::<serde_json::Value>`: metin tek bir geçerli JSON değeri mi.
/// Sonuç yalnız metne bağlıdır; hangi metinlerin kabul edildiği söylenmez.
#[verifier::external_body]
fn json_cozulur(metin: &str) -> (r: bool)
    ensures
        r == json_gecerli(metin@),
{
    serde_json::from_str::<serde_json::Value>(metin).is_ok()
}

/// Düşünce alanı: önce `reasoning_content`, yoksa `reasoning`.
pub open spec fn dusunce_alani(i: Icerik) -> Option<Seq<char>> {
    match i.reasoning_content {
        Some(r) => Some(r@),
        None => match i.reasoning {
            Some(r) => Some(r@),
            None => None,
        },
    }
}

/// Cevaptan içerik: `content` (kırpılmış) boş değilse o. Boşsa ve çağrı JSON bekliyorsa
/// düşüncedeki `{ … }` bloğu geçerli JSON ise o; düzyazı çağrısında düşünce asla içerik
/// sayılmaz.
pub open spec fn yanit_icerigi_spec(i: Icerik, kategori: Seq<char>) -> Option<Seq<char>> {
    let c = match i.content {
        Some(c) => kirp(c@),
        None => seq![],
    };
    if c.len() > 0 {
        Some(c)
    } else if !json_kategorisi(kategori) {
        None
    } else {
        match dusunce_alani(i) {
            None => None,
            Some(d) => {
                let aday = json_ayikla_spec(d);
                if basla(aday, seq!['{']) && json_gecerli(aday) {
                    Some(aday)
                } else {
                    None
                }
            },
        }
    }
}

fn kirpilmis_metin(s: &str) -> (r: String)
    ensures
        r@ == kirp(s@),
{
    let v = karakterler(s);
    let n = v.len();
    assert(v@.subrange(0, n as int) =~= v@);
    let (a, b) = kirp_sinir(&v, 0, n);
    metin_yap(&v, a, b)
}

pub fn yanit_icerigi(icerik: &Icerik, kategori: &str) -> (r: Option<String>)
    ensures
        match r {
            Some(x) => yanit_icerigi_spec(*icerik, kategori@) == Some(x@),
            None => yanit_icerigi_spec(*icerik, kategori@) is None,
        },
{
    match &icerik.content {
        Some(c) => {
            let k = kirpilmis_metin(c.as_str());
            if k.as_str().unicode_len() > 0 {
                return Some(k);
            }
        },
        None => {},
    }
    if !json_kategorisi_mi(kategori) {
        return None;
    }
    let d: &str = match &icerik.reasoning_content {
        Some(r) => r.as_str(),
        None => match &icerik.reasoning {
            Some(r) => r.as_str(),
            None => return None,
        },
    };
    let aday = json_ayikla(d);
    let gecerli = json_cozulur(aday);
    dusunceden_json(aday, gecerli)
}

/// Düşünceden ayıklanan JSON adayı: '{' ile başlıyorsa ve çözülebiliyorsa (`gecerli`)
/// içerik olarak alınır.
pub fn dusunceden_json(aday: &str, gecerli: bool) -> (r: Option<String>)
    ensures
        match r {
            Some(x) => basla(aday@, seq!['{']) && gecerli && x@ == aday@,
            None => !(basla(aday@, seq!['{']) && gecerli),
        },
{
    let av = karakterler(aday);
    let ac = vec!['{'];
    assert(ac@ =~= seq!['{']);
    assert(av@.skip(0) =~= av@);
    if crate::metin::basliyor(&av, 0, &ac) && gecerli {
        Some(aday.to_owned())
    } else {
        None
    }
}

/// Cevaptaki düşüncenin karakter sayısı (hata mesajı için: bütçeyi düşünce mi yedi).
pub fn dusunce_uzunlugu(icerik: &Icerik) -> (r: usize)
    ensures
        r == match dusunce_alani(*icerik) {
            Some(d) => d.len(),
            None => 0,
        },
{
    match &icerik.reasoning_content {
        Some(r) => r.as_str().unicode_len(),
        None => match &icerik.reasoning {
            Some(r) => r.as_str().unicode_len(),
            None => 0,
        },
    }
}

// ---------- token sayacı ----------

/// Sağlayıcının döndürdüğü token sayacı.
#[derive(Clone, Copy, Debug)]
pub struct Kullanim {
    pub prompt_tokens: u64,
    pub completion_tokens: u64,
    /// Girişten önbellekten karşılananlar.
    pub cached_tokens: u64,
}

impl Kullanim {
    pub fn topla(&mut self, diger: Kullanim)
        requires
            old(self).prompt_tokens + diger.prompt_tokens <= u64::MAX,
            old(self).completion_tokens + diger.completion_tokens <= u64::MAX,
            old(self).cached_tokens + diger.cached_tokens <= u64::MAX,
        ensures
            final(self).prompt_tokens == old(self).prompt_tokens + diger.prompt_tokens,
            final(self).completion_tokens == old(self).completion_tokens + diger.completion_tokens,
            final(self).cached_tokens == old(self).cached_tokens + diger.cached_tokens,
    {
        self.prompt_tokens = self.prompt_tokens + diger.prompt_tokens;
        self.completion_tokens = self.completion_tokens + diger.completion_tokens;
        self.cached_tokens = self.cached_tokens + diger.cached_tokens;
    }
}

// ---------- yeniden deneme ----------

/// Geçici sayılan HTTP durumları: hız sınırı (429) ve her sunucu hatası (5xx).
pub open spec fn denenebilir(durum: u16) -> bool {
    durum == 429 || (500 <= durum && durum <= 599)
}

pub fn durum_denenebilir(durum: u16) -> (r: bool)
    ensures
        r == denenebilir(durum),
{
    durum == 429 || (500 <= durum && durum <= 599)
}

/// Bir deneme sonunda olan.
pub enum IstekOlayi {
    /// İstek gönderilemedi ya da cevap çözülemedi; bağlantı, zaman aşımı ve istek
    /// hataları geçicidir.
    GonderimHatasi { gecici: bool, aciklama: String },
    /// Başarısız HTTP durumu: kodu, yazılışı ("404 Not Found") ve gövdesi.
    HttpHatasi { durum: u16, durum_metni: String, govde: String },
    /// Başarılı cevaptan seçilen içerik (yoksa `None`) ve düşüncenin uzunluğu.
    Yanit { icerik: Option<String>, dusunce_kr: usize },
}

/// Denemenin ardından yapılacak.
pub enum IstekKarari {
    /// Verilen saniye beklenip yeniden denenir.
    Bekle(u64),
    Tamam(String),
    Hata(String),
}

/// Denemeler arasında taşınan durum.
pub struct Deneme {
    /// Kaçıncı deneme (0'dan).
    pub sira: u32,
    /// Reasoning alanları gövdede mi.
    pub kapatildi: bool,
    /// Son geçici hatanın açıklaması.
    pub son_hata: String,
    /// Çağrının türü (hata açıklaması için).
    pub kategori: String,
}

/// Son denemede de içerik gelmediyse hatanın açıklaması: tür, model, bütçe, düşünce uzunluğu.
pub open spec fn bos_yanit_metni(kategori: Seq<char>, model: Seq<char>, butce: Option<u64>, dusunce_kr: usize) -> Seq<char> {
    "modelden boş yanıt geldi ["@ + kategori + "] (model: "@ + model + ", max_tokens: "@
        + match butce {
        Some(b) => crate::yardimci::ondalik(b as nat),
        None => "bütçesiz"@,
    } + ", düşünce: "@ + crate::yardimci::ondalik(dusunce_kr as nat) + " kr)"@
}

/// HTTP hatasının açıklaması: durum, model ve kırpılmış gövde.
pub open spec fn http_hata_metni(durum_metni: Seq<char>, model: Seq<char>, govde: Seq<char>) -> Seq<char> {
    durum_metni + " (model: "@ + model + "): "@ + kirp_hata_spec(govde)
}

/// Gövdedeki model adı; yoksa "?".
pub open spec fn model_adi(a: IstekAyarlari) -> Seq<char> {
    match a.model {
        Some(m) => m@,
        None => "?"@,
    }
}

fn model_metni(ayar: &IstekAyarlari) -> (r: String)
    ensures
        r@ == model_adi(*ayar),
{
    match &ayar.model {
        Some(m) => m.clone(),
        None => "?".to_owned(),
    }
}

/// `butce_buyut`'un bıraktığı bütçe alanı.
pub open spec fn buyutulmus_butce(m: Option<u64>, taban: u32) -> Option<u64> {
    match m {
        None => None,
        Some(x) => {
            let y = buyutulmus(x as u32, taban);
            if y <= (x as u32) {
                m
            } else {
                Some(y as u64)
            }
        },
    }
}

/// `reasoning_dusuk_efor`'un bıraktığı reasoning alanı.
pub open spec fn dusuk_efor_alani(r: Option<ReasoningAlani>, api_adres: Seq<char>) -> Option<ReasoningAlani> {
    if adreste(api_adres, "openrouter"@) {
        Some(ReasoningAlani::DusukEfor)
    } else {
        r
    }
}

/// `butce_tabanini_uygula`'nın bıraktığı bütçe alanı.
pub open spec fn tabanli_butce(m: Option<u64>, taban: u32) -> Option<u64> {
    match m {
        Some(x) => if (x as u32) < taban {
            Some(taban as u64)
        } else {
            m
        },
        None => None,
    }
}

/// Denemenin sonucu işlenir. Geçici ağ hatası ya da geçici HTTP durumu son deneme
/// değilse beklenip yeniden denenir (1. yeniden denemede 2, 2.'de 4 saniye).
/// "Reasoning kapatılamaz" hatasında alanlar kaldırılır, düşük efor istenir, bütçe
/// büyütülür ve yeniden denenir. Cevap geldi ama içerik yoksa son deneme değilse düşük
/// efor ve büyük bütçeyle yeniden denenir; içerik varsa biter.
pub fn deneme_sonucu(d: &mut Deneme, ayar: &mut IstekAyarlari, api_adres: &str, olay: IstekOlayi) -> (r: IstekKarari)
    requires
        old(d).sira <= AI_YENIDEN_DENEME,
    ensures
        match r {
            IstekKarari::Bekle(s) => old(d).sira < AI_YENIDEN_DENEME && final(d).sira == old(d).sira + 1
                && s == 2 * (old(d).sira + 1),
            _ => final(d).sira == old(d).sira,
        },
        match olay {
            IstekOlayi::GonderimHatasi { gecici, aciklama } => if gecici && old(d).sira
                < AI_YENIDEN_DENEME {
                r is Bekle && final(d).son_hata@ == aciklama@
            } else {
                r matches IstekKarari::Hata(h) && h@ == aciklama@
            },
            IstekOlayi::HttpHatasi { durum, durum_metni, govde } => {
                let hata = http_hata_metni(durum_metni@, model_adi(*old(ayar)), govde@);
                let zorunlu = old(d).sira < AI_YENIDEN_DENEME && old(d).kapatildi
                    && reasoning_zorunlu_spec(govde@);
                if zorunlu {
                    &&& r is Bekle
                    &&& !final(d).kapatildi
                    &&& final(d).son_hata@ == hata
                } else if old(d).sira < AI_YENIDEN_DENEME && denenebilir(durum) {
                    r is Bekle && final(d).son_hata@ == hata && final(d).kapatildi == old(d).kapatildi
                } else {
                    r matches IstekKarari::Hata(h) && h@ == hata
                }
            },
            IstekOlayi::Yanit { icerik, dusunce_kr } => match icerik {
                Some(x) => r matches IstekKarari::Tamam(t) && t@ == x@,
                None => if old(d).sira < AI_YENIDEN_DENEME {
                    r is Bekle && final(d).son_hata@ == "modelden boş yanıt geldi"@
                } else {
                    r matches IstekKarari::Hata(h) && h@ == bos_yanit_metni(
                        old(d).kategori@,
                        model_adi(*old(ayar)),
                        old(ayar).max_tokens,
                        dusunce_kr,
                    )
                },
            },
        },
        ({
            let zorunlu = match olay {
                IstekOlayi::HttpHatasi { govde, .. } => old(d).sira < AI_YENIDEN_DENEME
                    && old(d).kapatildi && reasoning_zorunlu_spec(govde@),
                _ => false,
            };
            let bos = match olay {
                IstekOlayi::Yanit { icerik, .. } => icerik is None && old(d).sira < AI_YENIDEN_DENEME,
                _ => false,
            };
            &&& zorunlu ==> final(ayar).model == old(ayar).model
                && final(ayar).reasoning == dusuk_efor_alani(None, api_adres@)
                && final(ayar).enable_thinking is None
                && final(ayar).max_tokens == buyutulmus_butce(old(ayar).max_tokens, REASONING_BUTCE_TABANI)
            &&& bos ==> final(ayar).model == old(ayar).model
                && final(ayar).reasoning == dusuk_efor_alani(old(ayar).reasoning, api_adres@)
                && final(ayar).enable_thinking == old(ayar).enable_thinking
                && final(ayar).max_tokens == buyutulmus_butce(old(ayar).max_tokens, REASONING_BUTCE_TABANI)
            &&& !zorunlu && !bos ==> *final(ayar) == *old(ayar)
        }),
{
    match olay {
        IstekOlayi::GonderimHatasi { gecici, aciklama } => {
            if gecici && d.sira < AI_YENIDEN_DENEME {
                d.son_hata = aciklama;
                d.sira = d.sira + 1;
                IstekKarari::Bekle(2 * (d.sira as u64))
            } else {
                IstekKarari::Hata(aciklama)
            }
        },
        IstekOlayi::HttpHatasi { durum, durum_metni, govde } => {
            let model = model_metni(ayar);
            let mut v: Vec<char> = Vec::new();
            ekle_metin(&mut v, durum_metni.as_str());
            ekle_metin(&mut v, " (model: ");
            ekle_metin(&mut v, model.as_str());
            ekle_metin(&mut v, "): ");
            let k = kirp_hata(govde.as_str());
            ekle_metin(&mut v, k.as_str());
            let hata = crate::metin::metne(&v);
            if d.sira < AI_YENIDEN_DENEME && d.kapatildi && reasoning_zorunlu_hatasi(govde.as_str()) {
                reasoning_alanlarini_kaldir(ayar);
                reasoning_dusuk_efor(ayar, api_adres);
                d.kapatildi = false;
                let _ = butce_buyut(ayar, REASONING_BUTCE_TABANI);
                d.son_hata = hata;
                d.sira = d.sira + 1;
                return IstekKarari::Bekle(2 * (d.sira as u64));
            }
            if d.sira < AI_YENIDEN_DENEME && durum_denenebilir(durum) {
                d.son_hata = hata;
                d.sira = d.sira + 1;
                return IstekKarari::Bekle(2 * (d.sira as u64));
            }
            IstekKarari::Hata(hata)
        },
        IstekOlayi::Yanit { icerik, dusunce_kr } => {
            match icerik {
                Some(x) => IstekKarari::Tamam(x),
                None => {
                    if d.sira < AI_YENIDEN_DENEME {
                        reasoning_dusuk_efor(ayar, api_adres);
                        let _ = butce_buyut(ayar, REASONING_BUTCE_TABANI);
                        d.son_hata = "modelden boş yanıt geldi".to_owned();
                        d.sira = d.sira + 1;
                        IstekKarari::Bekle(2 * (d.sira as u64))
                    } else {
                        IstekKarari::Hata(bos_yanit_hatasi(d.kategori.as_str(), ayar, dusunce_kr))
                    }
                },
            }
        },
    }
}

fn bos_yanit_hatasi(kategori: &str, ayar: &IstekAyarlari, dusunce_kr: usize) -> (r: String)
    ensures
        r@ == bos_yanit_metni(kategori@, model_adi(*ayar), ayar.max_tokens, dusunce_kr),
{
    let mut v: Vec<char> = Vec::new();
    ekle_metin(&mut v, "modelden boş yanıt geldi [");
    ekle_metin(&mut v, kategori);
    ekle_metin(&mut v, "] (model: ");
    let m = model_metni(ayar);
    ekle_metin(&mut v, m.as_str());
    ekle_metin(&mut v, ", max_tokens: ");
    match ayar.max_tokens {
        Some(b) => {
            let s = crate::yardimci::ondalik_yaz_u64(b);
            crate::yardimci::ekle(&mut v, &s);
        },
        None => ekle_metin(&mut v, "bütçesiz"),
    }
    ekle_metin(&mut v, ", düşünce: ");
    let s = crate::yardimci::ondalik_yaz(dusunce_kr);
    crate::yardimci::ekle(&mut v, &s);
    ekle_metin(&mut v, " kr)");
    crate::metin::metne(&v)
}

// ---------- akışlı istek ----------

/// Akışlı isteğin başında: modelin reasoning'i kapatılamadığı biliniyorsa bütçe tabana
/// çekilir ve alan eklenmez; bilinmiyorsa kullanıcının kipine göre kapatılır. Alanların
/// gövdede olup olmadığı döner.
pub fn akis_baslangici(ayar: &mut IstekAyarlari, kip: DusunmeKip, api_adres: &str, zorunlu_biliniyor: bool) -> (r: bool)
    ensures
        zorunlu_biliniyor ==> !r && final(ayar).reasoning == old(ayar).reasoning
            && final(ayar).enable_thinking == old(ayar).enable_thinking && final(ayar).max_tokens
            == (match old(ayar).max_tokens {
            Some(m) => if (m as u32) < REASONING_ZORUNLU_TABAN {
                Some(REASONING_ZORUNLU_TABAN as u64)
            } else {
                Some(m)
            },
            None => None,
        }),
        !zorunlu_biliniyor ==> {
            let openrouter = adreste(api_adres@, "openrouter"@);
            let mistral = adreste(api_adres@, "mistral"@);
            let istenir = kip == DusunmeKip::Kapali;
            &&& r == (istenir && (openrouter || !mistral))
            &&& final(ayar).max_tokens == old(ayar).max_tokens
        },
        final(ayar).model == old(ayar).model,
{
    if zorunlu_biliniyor {
        let _ = butce_tabanini_uygula(ayar, REASONING_ZORUNLU_TABAN);
        false
    } else {
        reasoning_kapat(ayar, kip, api_adres, false)
    }
}

/// Akışlı isteğin bir denemesinin sonucu.
pub enum AkisOlayi {
    GonderimHatasi { gecici: bool, aciklama: String },
    HttpHatasi { durum: u16, durum_metni: String, govde: String },
    /// Akış açıldı: okuyucu çağırana döner.
    Acildi,
}

/// Akışlı denemenin ardından yapılacak.
pub enum AkisKarari {
    /// Verilen saniye beklenip yeniden denenir; modelin reasoning'i kapatılamadığı
    /// öğrenildiyse `true` (bir daha denenmesin diye işaretlenir).
    Bekle(u64, bool),
    Ac,
    Hata(String),
}

/// Akışlı denemenin sonucu işlenir: yeniden deneme yalnız akış açılmadan önce. "Reasoning
/// kapatılamaz" hatasında alanlar kaldırılır, bütçe tabana çekilir, model işaretlenir.
pub fn akis_deneme_sonucu(d: &mut Deneme, ayar: &mut IstekAyarlari, olay: AkisOlayi) -> (r: AkisKarari)
    requires
        old(d).sira <= AI_YENIDEN_DENEME,
    ensures
        match r {
            AkisKarari::Bekle(s, _) => old(d).sira < AI_YENIDEN_DENEME && final(d).sira == old(d).sira + 1
                && s == 2 * (old(d).sira + 1),
            _ => final(d).sira == old(d).sira,
        },
        match olay {
            AkisOlayi::Acildi => r is Ac,
            AkisOlayi::GonderimHatasi { gecici, aciklama } => if gecici && old(d).sira
                < AI_YENIDEN_DENEME {
                r matches AkisKarari::Bekle(_, false) && final(d).son_hata@ == aciklama@
            } else {
                r matches AkisKarari::Hata(h) && h@ == aciklama@
            },
            AkisOlayi::HttpHatasi { durum, durum_metni, govde } => {
                let hata = http_hata_metni(durum_metni@, model_adi(*old(ayar)), govde@);
                if old(d).sira < AI_YENIDEN_DENEME && old(d).kapatildi && reasoning_zorunlu_spec(
                    govde@,
                ) {
                    &&& r matches AkisKarari::Bekle(_, true)
                    &&& !final(d).kapatildi
                    &&& final(ayar).reasoning is None
                    &&& final(ayar).enable_thinking is None
                    &&& final(d).son_hata@ == hata
                } else if old(d).sira < AI_YENIDEN_DENEME && denenebilir(durum) {
                    r matches AkisKarari::Bekle(_, false) && final(d).son_hata@ == hata
                } else {
                    r matches AkisKarari::Hata(h) && h@ == hata
                }
            },
        },
        ({
            let zorunlu = match olay {
                AkisOlayi::HttpHatasi { govde, .. } => old(d).sira < AI_YENIDEN_DENEME && old(d).kapatildi
                    && reasoning_zorunlu_spec(govde@),
                _ => false,
            };
            &&& zorunlu ==> final(ayar).model == old(ayar).model && final(ayar).reasoning is None
                && final(ayar).enable_thinking is None
                && final(ayar).max_tokens == tabanli_butce(old(ayar).max_tokens, REASONING_ZORUNLU_TABAN)
            &&& !zorunlu ==> *final(ayar) == *old(ayar)
        }),
{
    match olay {
        AkisOlayi::Acildi => AkisKarari::Ac,
        AkisOlayi::GonderimHatasi { gecici, aciklama } => {
            if gecici && d.sira < AI_YENIDEN_DENEME {
                d.son_hata = aciklama;
                d.sira = d.sira + 1;
                AkisKarari::Bekle(2 * (d.sira as u64), false)
            } else {
                AkisKarari::Hata(aciklama)
            }
        },
        AkisOlayi::HttpHatasi { durum, durum_metni, govde } => {
            let model = model_metni(ayar);
            let mut v: Vec<char> = Vec::new();
            ekle_metin(&mut v, durum_metni.as_str());
            ekle_metin(&mut v, " (model: ");
            ekle_metin(&mut v, model.as_str());
            ekle_metin(&mut v, "): ");
            let k = kirp_hata(govde.as_str());
            ekle_metin(&mut v, k.as_str());
            let hata = crate::metin::metne(&v);
            if d.sira < AI_YENIDEN_DENEME && d.kapatildi && reasoning_zorunlu_hatasi(govde.as_str()) {
                reasoning_alanlarini_kaldir(ayar);
                d.kapatildi = false;
                let _ = butce_tabanini_uygula(ayar, REASONING_ZORUNLU_TABAN);
                d.son_hata = hata;
                d.sira = d.sira + 1;
                return AkisKarari::Bekle(2 * (d.sira as u64), true);
            }
            if d.sira < AI_YENIDEN_DENEME && durum_denenebilir(durum) {
                d.son_hata = hata;
                d.sira = d.sira + 1;
                return AkisKarari::Bekle(2 * (d.sira as u64), false);
            }
            AkisKarari::Hata(hata)
        },
    }
}

} // verus!
