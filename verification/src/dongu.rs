//! Arka plan döngülerinin ve olayların kararları: satırların gönderim planı, haber linki,
//! bellek kuyruğu, uyku geçişi, laf atma, kanal seçimi, tepkilerin kaydı.
use vstd::prelude::*;
use std::collections::HashSet;
use std::collections::VecDeque;
use crate::ayarlar::{HACK_MESAJI, SOHBET_BOYU, YORUM_SURESI};
use crate::karar::{ad_satiri, kullanici_eklenmis};
use crate::metin::{basla, birlestir, karakterler, metne};
use crate::protokol::{cevap_parcala, cevap_parcala_spec, protokol_metni_spec, Cevap, CevapModeli};
use crate::sohbet::{
    ek_alanlar_ayni, gecmis_modeli, hafiza_satirlari, hatirla, kanal_not, kanal_satirlari, kullanici,
    son_n, Durum, Rol,
};
use crate::yardimci::{birlestirilmis, ekle, ekle_metin, ondalik, ondalik_yaz_u64, soy, soy_spec};

verus! {

broadcast use {vstd::string::group_string_axioms, vstd::std_specs::hash::group_hash_axioms};

// ---------- satır satır gönderim ----------

/// İki satır arasındaki bekleme: taban artı karakter başına süre, en çok tavan (ms).
pub const SATIR_GECIKME_TABAN: u64 = 600;
pub const SATIR_GECIKME_HARF: u64 = 40;
pub const SATIR_GECIKME_TAVAN: u64 = 2500;

pub open spec fn satir_gecikmesi_spec(karakter: nat) -> int {
    let b = SATIR_GECIKME_TABAN + SATIR_GECIKME_HARF * karakter;
    if b > SATIR_GECIKME_TAVAN {
        SATIR_GECIKME_TAVAN as int
    } else {
        b
    }
}

pub fn satir_gecikmesi(satir: &str) -> (r: u64)
    ensures
        r == satir_gecikmesi_spec(satir@.len()),
{
    let n = satir.unicode_len();
    let n64: u64 = n as u64;
    let taban: u128 = SATIR_GECIKME_TABAN as u128;
    let harf: u128 = SATIR_GECIKME_HARF as u128;
    assert(taban == 600 && harf == 40);
    let b: u128 = taban + harf * (n64 as u128);
    if b > SATIR_GECIKME_TAVAN as u128 {
        SATIR_GECIKME_TAVAN
    } else {
        b as u64
    }
}

/// Gönderilecek bir satır: metin (ilk satır etiketli), öncesinde beklenecek süre, etiket ve
/// yanıt bağı yalnız ilk satırda.
pub struct PlanliMesaj {
    pub metin: String,
    pub bekle_ms: u64,
    pub ping: Option<u64>,
    pub yanit: Option<u64>,
}

/// Satır satır gönderimin planı: mesajlar, varsa tepki (emoji ve hedef mesaj) ve kayda
/// girecek protokol metni.
pub struct GonderimPlani {
    pub mesajlar: Vec<PlanliMesaj>,
    pub tepki: Option<(String, u64)>,
    pub protokol: String,
}

/// İlk satırın metni: etiketlenecek kişi varsa "<@kimlik> " önekiyle.
pub open spec fn ilk_satir_metni(satir: Seq<char>, ping: Option<u64>) -> Seq<char> {
    match ping {
        Some(u) => "<@"@ + ondalik(u as nat) + "> "@ + satir,
        None => satir,
    }
}

/// Tepkinin düşeceği mesaj yoksa tepki yok sayılır; ne satır ne tepki kaldıysa hiçbir şey
/// gitmez.
pub fn gonderim_plani(cevap: Cevap, yanit: Option<u64>, tepki_hedefi: Option<u64>, ping: Option<u64>) -> (r:
    Option<GonderimPlani>)
    ensures
        ({
            let tepki = if tepki_hedefi is Some {
                cevap@.tepki
            } else {
                None
            };
            &&& r is None <==> (cevap@.satirlar.len() == 0 && tepki is None)
            &&& r matches Some(p) ==> {
                &&& p.mesajlar@.len() == cevap@.satirlar.len()
                &&& forall|i: int| #![trigger p.mesajlar@[i]] 0 <= i < p.mesajlar@.len() ==> {
                    &&& p.mesajlar@[i].metin@ == (if i == 0 {
                        ilk_satir_metni(cevap@.satirlar[i], ping)
                    } else {
                        cevap@.satirlar[i]
                    })
                    &&& p.mesajlar@[i].bekle_ms == (if i == 0 {
                        0
                    } else {
                        satir_gecikmesi_spec(cevap@.satirlar[i].len())
                    })
                    &&& p.mesajlar@[i].ping == (if i == 0 { ping } else { None })
                    &&& p.mesajlar@[i].yanit == (if i == 0 { yanit } else { None })
                }
                &&& match p.tepki {
                    Some((e, h)) => tepki == Some(e@) && tepki_hedefi == Some(h),
                    None => tepki is None,
                }
                &&& p.protokol@ == protokol_metni_spec(
                    CevapModeli { satirlar: cevap@.satirlar, tepki: tepki, sus: cevap@.sus },
                )
            }
        }),
{
    let mut cevap = cevap;
    let ghost c0 = cevap@;
    if tepki_hedefi.is_none() {
        cevap.tepki = None;
    }
    if cevap.satirlar.len() == 0 && cevap.tepki.is_none() {
        return None;
    }
    let ghost xs = cevap@.satirlar;
    let mut mesajlar: Vec<PlanliMesaj> = Vec::new();
    let mut i: usize = 0;
    while i < cevap.satirlar.len()
        invariant
            i <= cevap.satirlar@.len(),
            xs == cevap@.satirlar,
            mesajlar@.len() == i,
            forall|k: int| #![trigger mesajlar@[k]] 0 <= k < i ==> {
                &&& mesajlar@[k].metin@ == (if k == 0 {
                    ilk_satir_metni(xs[k], ping)
                } else {
                    xs[k]
                })
                &&& mesajlar@[k].bekle_ms == (if k == 0 {
                    0
                } else {
                    satir_gecikmesi_spec(xs[k].len())
                })
                &&& mesajlar@[k].ping == (if k == 0 { ping } else { None })
                &&& mesajlar@[k].yanit == (if k == 0 { yanit } else { None })
            },
        decreases cevap.satirlar@.len() - i,
    {
        let satir = cevap.satirlar[i].as_str();
        assert(satir@ == xs[i as int]);
        let m = if i == 0 {
            let metin = match ping {
                Some(u) => {
                    let mut v: Vec<char> = Vec::new();
                    ekle_metin(&mut v, "<@");
                    let s = ondalik_yaz_u64(u);
                    ekle(&mut v, &s);
                    ekle_metin(&mut v, "> ");
                    ekle_metin(&mut v, satir);
                    metne(&v)
                },
                None => satir.to_owned(),
            };
            PlanliMesaj { metin, bekle_ms: 0, ping, yanit }
        } else {
            PlanliMesaj { metin: satir.to_owned(), bekle_ms: satir_gecikmesi(satir), ping: None, yanit: None }
        };
        mesajlar.push(m);
        i += 1;
    }
    let protokol = cevap.protokol_metni();
    let tepki = match (cevap.tepki, tepki_hedefi) {
        (Some(e), Some(h)) => Some((e, h)),
        _ => None,
    };
    Some(GonderimPlani { mesajlar, tepki, protokol })
}

// ---------- haber ve şaka ----------

/// Haberin linki: http(s) adresi varsa o, yoksa Hacker News tartışma sayfası.
pub open spec fn haber_linki_spec(url: Seq<char>, id: u64) -> Seq<char> {
    if basla(url, "https://"@) || basla(url, "http://"@) {
        url
    } else {
        "https://news.ycombinator.com/item?id="@ + ondalik(id as nat)
    }
}

pub fn haber_linki(url: &str, id: u64) -> (r: String)
    ensures
        r@ == haber_linki_spec(url@, id),
{
    let v = karakterler(url);
    assert(v@.skip(0) =~= v@);
    if crate::metin::basliyor(&v, 0, &karakterler("https://")) || crate::metin::basliyor(
        &v,
        0,
        &karakterler("http://"),
    ) {
        url.to_owned()
    } else {
        let mut r: Vec<char> = Vec::new();
        ekle_metin(&mut r, "https://news.ycombinator.com/item?id=");
        let s = ondalik_yaz_u64(id);
        ekle(&mut r, &s);
        metne(&r)
    }
}

/// Görsel şakasının tek mesajı: soyulmuş cevabın protokole göre ilk satırı (yoksa şaka
/// atlanır).
pub fn saka_satiri(metin: &str, bot_adi: &str) -> (r: Option<String>)
    ensures
        ({
            let c = cevap_parcala_spec(soy_spec(metin@, bot_adi@));
            match r {
                Some(s) => c.satirlar.len() > 0 && s@ == c.satirlar[0],
                None => c.satirlar.len() == 0,
            }
        }),
{
    let c = cevap_parcala(soy(metin, bot_adi));
    if c.satirlar.len() > 0 {
        Some(c.satirlar[0].clone())
    } else {
        None
    }
}

/// Açılan sohbetin tarifi: kanalın son satırları ve açılış satırıyla tohumlanmış geçmiş,
/// açılış cevap sayılır; sayaçlar sıfır, hack şakası `hackli` tur.
pub open spec fn acilan_sohbet(s: crate::sohbet::Sohbet, d: Durum, kanal: u64, acilis: Seq<char>, hackli: u32) -> bool {
    &&& gecmis_modeli(s.gecmis@) == crate::sohbet::acilan_gecmis(kanal_satirlari(d, kanal), d.bot_adi@, Some(acilis))
    &&& forall|t: int| 0 <= t < s.gecmis@.len() ==> (#[trigger] s.gecmis@[t]).resim is None
    &&& s.sayac == 1 && s.gelen == 0 && s.hackli == hackli && s.son_mesaj is None && !s.son_etiketlendi
    &&& s.son_gelenler@.len() == 0 && s.ruh_hali@.len() == 0
}

/// Görsel şakası gitti: şakanın satırıyla sohbet açılır (açıksa o sohbet sürer); hack
/// şakasıysa sohbetin sonraki `HACK_MESAJI` cevabı hacklenmiş taklidiyle gider.
pub fn saka_basladi(d: &mut Durum, kanal: u64, ilk: String, hack: bool, simdi: u64)
    ensures
        final(d).sohbetler@.remove(kanal) == old(d).sohbetler@.remove(kanal),
        final(d).sohbetler@.contains_key(kanal),
        old(d).sohbetler@.contains_key(kanal) ==> final(d).sohbetler@[kanal] == (crate::sohbet::Sohbet {
            hackli: if hack {
                HACK_MESAJI
            } else {
                old(d).sohbetler@[kanal].hackli
            },
            ..old(d).sohbetler@[kanal]
        }),
        !old(d).sohbetler@.contains_key(kanal) ==> acilan_sohbet(
            final(d).sohbetler@[kanal],
            *old(d),
            kanal,
            ilk@,
            if hack {
                HACK_MESAJI
            } else {
                0
            },
        ),
        final(d).son_aktivite@ == old(d).son_aktivite@.insert(kanal, simdi),
        final(d).hafiza@ == old(d).hafiza@,
        final(d).kanal_gecmisi@ == old(d).kanal_gecmisi@,
        final(d).haber_bekleyen@ == old(d).haber_bekleyen@,
        final(d).bot_adi == old(d).bot_adi,
        ek_alanlar_ayni(*final(d), *old(d)),
{
    let ghost ilk_v = ilk@;
    crate::sohbet::sohbet_baslat(d, kanal, Some(ilk), simdi);
    if hack {
        match d.sohbetler.remove(&kanal) {
            Some(mut s) => {
                s.hackli = HACK_MESAJI;
                d.sohbetler.insert(kanal, s);
            },
            None => {},
        }
    }
}

/// Haber gitti: tanıtım satırıyla sohbet açılır, yorumlar `YORUM_SURESI` boyunca beklenir,
/// haber bir daha atılmasın diye kimliği kaydedilir.
pub fn haber_atildi(d: &mut Durum, atilan: &mut HashSet<u64>, kanal: u64, tanitim: String, haber_id: u64, simdi: u64)
    requires
        simdi <= u64::MAX - YORUM_SURESI,
    ensures
        final(d).sohbetler@.remove(kanal) == old(d).sohbetler@.remove(kanal),
        final(d).sohbetler@.contains_key(kanal),
        old(d).sohbetler@.contains_key(kanal) ==> final(d).sohbetler@[kanal] == old(d).sohbetler@[kanal],
        !old(d).sohbetler@.contains_key(kanal) ==> acilan_sohbet(final(d).sohbetler@[kanal], *old(d), kanal, tanitim@, 0),
        final(d).haber_bekleyen@ == old(d).haber_bekleyen@.insert(kanal, (simdi + YORUM_SURESI) as u64),
        final(atilan)@ == old(atilan)@.insert(haber_id),
        final(d).son_aktivite@ == old(d).son_aktivite@.insert(kanal, simdi),
        final(d).hafiza@ == old(d).hafiza@,
        final(d).kanal_gecmisi@ == old(d).kanal_gecmisi@,
        final(d).bot_adi == old(d).bot_adi,
        ek_alanlar_ayni(*final(d), *old(d)),
{
    crate::sohbet::sohbet_baslat(d, kanal, Some(tanitim), simdi);
    d.haber_bekleyen.insert(kanal, simdi + YORUM_SURESI);
    atilan.insert(haber_id);
}

// ---------- bellek kuyruğu ----------

/// Zihne işlenecek iş: döküm, kaynak, kanal adı, eleştirmen de çalışsın mı.
pub struct BellekIsi {
    pub dokum: String,
    pub kaynak: String,
    pub kanal_adi: String,
    pub elestir: bool,
}

/// Kuyruktan sıradaki iş alınır; kuyruk elliyi aştıysa önce en eski iş atılır.
pub fn kuyruktan_al(kuyruk: &mut VecDeque<BellekIsi>) -> (r: Option<BellekIsi>)
    ensures
        ({
            let k = if old(kuyruk)@.len() > 50 {
                old(kuyruk)@.drop_first()
            } else {
                old(kuyruk)@
            };
            &&& k.len() == 0 ==> r is None && final(kuyruk)@ == k
            &&& k.len() > 0 ==> r == Some(k[0]) && final(kuyruk)@ == k.drop_first()
        }),
{
    if kuyruk.len() > 50 {
        let _ = kuyruk.pop_front();
    }
    let ghost k = kuyruk@;
    let r = kuyruk.pop_front();
    proof {
        if k.len() > 0 {
            assert(kuyruk@ =~= k.drop_first());
        }
    }
    r
}

/// Bot uykudayken iki saatte bir gece gözlemi kuyruğa düşer.
pub fn gece_gozlemi_gerekir(uyanik: bool, simdi: i64, son_gece_gozlem: i64) -> (r: bool)
    ensures
        r == (!uyanik && simdi - son_gece_gozlem >= 7200),
{
    if uyanik {
        return false;
    }
    let fark: i128 = simdi as i128 - son_gece_gozlem as i128;
    fark >= 7200
}

// ---------- uyku ----------

/// Uyku durumundaki değişim.
#[derive(Clone, Copy, Debug, PartialEq, Eq, Structural)]
pub enum UykuGecisi {
    Yok,
    Uyudu,
    Uyandi,
}

/// Planın dediği (`uyanik`) ile kayıtlı durum (`uyuyor`) kıyaslanır, kayıt güncellenir.
pub fn uyku_gecisi(uyuyor: &mut bool, uyanik: bool) -> (r: UykuGecisi)
    ensures
        *final(uyuyor) == !uyanik,
        r == (if uyanik && *old(uyuyor) {
            UykuGecisi::Uyandi
        } else if !uyanik && !*old(uyuyor) {
            UykuGecisi::Uyudu
        } else {
            UykuGecisi::Yok
        }),
{
    let r = if uyanik && *uyuyor {
        UykuGecisi::Uyandi
    } else if !uyanik && !*uyuyor {
        UykuGecisi::Uyudu
    } else {
        UykuGecisi::Yok
    };
    *uyuyor = !uyanik;
    r
}

/// Uyanınca uyurken gelen etiketlere dönülür: son etiketin kanalı ve modele giden liste.
pub open spec fn uyandim_metni_spec(bekleyen: Seq<(u64, Seq<char>)>) -> Seq<char> {
    "uyurken sana yazılanlar:\n"@ + birlestir(
        bekleyen.map_values(|b: (u64, Seq<char>)| "- "@ + b.1),
        seq!['\n'],
    )
}

pub fn uyandim_istegi(bekleyen: &Vec<(u64, String)>) -> (r: Option<(u64, String)>)
    ensures
        match r {
            Some((k, m)) => bekleyen@.len() > 0 && k == bekleyen@.last().0 && m@ == uyandim_metni_spec(
                bekleyen@.map_values(|b: (u64, String)| (b.0, b.1@)),
            ),
            None => bekleyen@.len() == 0,
        },
{
    if bekleyen.len() == 0 {
        return None;
    }
    let ghost bv = bekleyen@.map_values(|b: (u64, String)| (b.0, b.1@));
    let ghost f = |b: (u64, Seq<char>)| "- "@ + b.1;
    let mut satirlar: Vec<String> = Vec::new();
    let mut i: usize = 0;
    while i < bekleyen.len()
        invariant
            i <= bekleyen@.len(),
            bv == bekleyen@.map_values(|b: (u64, String)| (b.0, b.1@)),
            f == (|b: (u64, Seq<char>)| "- "@ + b.1),
            satirlar.deep_view() == bv.take(i as int).map_values(f),
        decreases bekleyen@.len() - i,
    {
        let mut v: Vec<char> = Vec::new();
        ekle_metin(&mut v, "- ");
        ekle_metin(&mut v, bekleyen[i].1.as_str());
        let ghost s0 = satirlar.deep_view();
        satirlar.push(metne(&v));
        assert(satirlar.deep_view() =~= s0.push(f(bv[i as int])));
        assert(bv.take(i + 1) =~= bv.take(i as int).push(bv[i as int]));
        assert(bv.take(i + 1).map_values(f) =~= bv.take(i as int).map_values(f).push(f(bv[i as int])));
        i += 1;
    }
    assert(bv.take(i as int) =~= bv);
    let liste = birlestirilmis(&satirlar, "\n");
    assert("\n"@ =~= seq!['\n']) by {
        reveal_strlit("\n");
    }
    let mut v: Vec<char> = Vec::new();
    ekle_metin(&mut v, "uyurken sana yazılanlar:\n");
    ekle_metin(&mut v, liste.as_str());
    let k = bekleyen[bekleyen.len() - 1].0;
    Some((k, metne(&v)))
}

/// Uyurken yazılanlar: hafızada uykunun başındaki uzunluktan sonrası.
pub fn gece_yazilanlar(d: &Durum, uyku_basi_uzunlugu: usize) -> (r: Vec<String>)
    ensures
        r.deep_view() == (if uyku_basi_uzunlugu < d.hafiza@.len() {
            hafiza_satirlari(*d).skip(uyku_basi_uzunlugu as int)
        } else {
            seq![]
        }),
{
    let mut r: Vec<String> = Vec::new();
    let n = d.hafiza.len();
    let ghost h = hafiza_satirlari(*d);
    let mut i = uyku_basi_uzunlugu;
    if i >= n {
        return r;
    }
    while i < n
        invariant
            uyku_basi_uzunlugu <= i <= n == d.hafiza@.len(),
            h == hafiza_satirlari(*d),
            r.deep_view() == h.subrange(uyku_basi_uzunlugu as int, i as int),
        decreases n - i,
    {
        let ghost r0 = r.deep_view();
        r.push(d.hafiza[i].clone());
        assert(r.deep_view() =~= r0.push(h[i as int]));
        assert(h.subrange(uyku_basi_uzunlugu as int, i + 1) =~= h.subrange(
            uyku_basi_uzunlugu as int,
            i as int,
        ).push(h[i as int]));
        i += 1;
    }
    assert(h.subrange(uyku_basi_uzunlugu as int, n as int) =~= h.skip(uyku_basi_uzunlugu as int));
    r
}

/// Gece yazılanlar ilgiyi çektiyse (5 ve üstü) son kanala dönülür; orada açık sohbet varsa
/// dönülmez.
pub fn uyanis_kanali(d: &Durum, ilgi: i32) -> (r: Option<u64>)
    ensures
        r == (if ilgi >= 5 && d.son_kanal is Some && !d.sohbetler@.contains_key(d.son_kanal->0) {
            d.son_kanal
        } else {
            None
        }),
{
    if ilgi < 5 {
        return None;
    }
    match d.son_kanal {
        Some(k) => if d.sohbetler.contains_key(&k) {
            None
        } else {
            Some(k)
        },
        None => None,
    }
}

// ---------- laf atma ----------

/// Durup dururken döngüsünün kararı.
#[derive(Clone, Copy, Debug, PartialEq, Eq, Structural)]
pub enum DurtmeKarari {
    Atla,
    /// Yoldayken günde bir "yoldayım" mesajı.
    Yolda,
    /// Yolculuktan bir gün önce haber verilir.
    Gidiyorum,
    /// Yazılım kanalına küçük bir dert atılır.
    SorunAt,
    DurupDururken,
}

/// Durumu: bugünün günü, son yol mesajının günü, yarın başlayan yolculuğun başı, duyurulan
/// yolculuğun başı. Zarlar çağıran tarafta atılır: yol mesajı zarı (atlamak için), laf
/// atma zarı (atlamak için), sorun zarı.
pub fn durtme_karari(
    yolda_bugun: Option<i64>,
    son_yol_mesaji: &mut i64,
    yarin_bas: Option<i64>,
    duyurulan_seyahat: &mut i64,
    yol_zari_atla: bool,
    durtme_zari_atla: bool,
    sorun_zari: bool,
) -> (r: DurtmeKarari)
    ensures
        match yolda_bugun {
            Some(bugun) => if *old(son_yol_mesaji) == bugun || yol_zari_atla {
                r == DurtmeKarari::Atla && *final(son_yol_mesaji) == *old(son_yol_mesaji)
            } else {
                r == DurtmeKarari::Yolda && *final(son_yol_mesaji) == bugun
            },
            None => *final(son_yol_mesaji) == *old(son_yol_mesaji) && match yarin_bas {
                Some(bas) => if *old(duyurulan_seyahat) == bas {
                    r == DurtmeKarari::Atla
                } else {
                    r == DurtmeKarari::Gidiyorum && *final(duyurulan_seyahat) == bas
                },
                None => r == (if durtme_zari_atla {
                    DurtmeKarari::Atla
                } else if sorun_zari {
                    DurtmeKarari::SorunAt
                } else {
                    DurtmeKarari::DurupDururken
                }),
            },
        },
        (yolda_bugun is Some || yarin_bas is None || *old(duyurulan_seyahat) == yarin_bas->0)
            ==> *final(duyurulan_seyahat) == *old(duyurulan_seyahat),
{
    match yolda_bugun {
        Some(bugun) => {
            if *son_yol_mesaji == bugun || yol_zari_atla {
                return DurtmeKarari::Atla;
            }
            *son_yol_mesaji = bugun;
            DurtmeKarari::Yolda
        },
        None => match yarin_bas {
            Some(bas) => {
                if *duyurulan_seyahat == bas {
                    return DurtmeKarari::Atla;
                }
                *duyurulan_seyahat = bas;
                DurtmeKarari::Gidiyorum
            },
            None => {
                if durtme_zari_atla {
                    DurtmeKarari::Atla
                } else if sorun_zari {
                    DurtmeKarari::SorunAt
                } else {
                    DurtmeKarari::DurupDururken
                }
            },
        },
    }
}

// ---------- kanal seçimi ----------

/// Bir sunucunun kanal seçimine giren bilgileri: kimliği, sistem kanalı, metin kanalları
/// (sıra numarası ve kimlik).
pub struct SunucuBilgisi {
    pub id: u64,
    pub sistem_kanali: Option<u64>,
    pub metin_kanallari: Vec<(i64, u64)>,
}

pub open spec fn izinli_spec(izinli: Option<Set<u64>>, k: u64) -> bool {
    match izinli {
        Some(s) => s.contains(k),
        None => true,
    }
}

/// İzinli kanallar arasında sırası en küçük olan (eşitlerde ilki).
pub open spec fn en_ustteki(ks: Seq<(i64, u64)>, izinli: Option<Set<u64>>) -> Option<(i64, u64)>
    decreases ks.len(),
{
    if ks.len() == 0 {
        None
    } else {
        let geri = en_ustteki(ks.drop_last(), izinli);
        let x = ks.last();
        if !izinli_spec(izinli, x.1) {
            geri
        } else {
            match geri {
                Some(g) => if x.0 < g.0 {
                    Some(x)
                } else {
                    Some(g)
                },
                None => Some(x),
            }
        }
    }
}

/// Sunucular sırayla: seçili sunucu varsa yalnız o; sistem kanalı izinliyse o, değilse en
/// üstteki izinli metin kanalı.
pub open spec fn sunuculardan(ss: Seq<(u64, Option<u64>, Seq<(i64, u64)>)>, sunucu: Option<u64>, izinli: Option<Set<u64>>) -> Option<u64>
    decreases ss.len(),
{
    if ss.len() == 0 {
        None
    } else {
        let s = ss[0];
        if sunucu is Some && sunucu->0 != s.0 {
            sunuculardan(ss.drop_first(), sunucu, izinli)
        } else if s.1 is Some && izinli_spec(izinli, s.1->0) {
            s.1
        } else {
            match en_ustteki(s.2, izinli) {
                Some(x) => Some(x.1),
                None => sunuculardan(ss.drop_first(), sunucu, izinli),
            }
        }
    }
}

pub open spec fn sunucu_modeli(s: SunucuBilgisi) -> (u64, Option<u64>, Seq<(i64, u64)>) {
    (s.id, s.sistem_kanali, s.metin_kanallari@)
}

fn izinli_mi(izinli: &Option<HashSet<u64>>, k: u64) -> (r: bool)
    ensures
        r == izinli_spec(
            match izinli {
                Some(s) => Some(s@),
                None => None,
            },
            k,
        ),
{
    match izinli {
        Some(s) => s.contains(&k),
        None => true,
    }
}

fn en_ustteki_bul(ks: &Vec<(i64, u64)>, izinli: &Option<HashSet<u64>>) -> (r: Option<(i64, u64)>)
    ensures
        r == en_ustteki(
            ks@,
            match izinli {
                Some(s) => Some(s@),
                None => None,
            },
        ),
{
    let ghost iz = match izinli {
        Some(s) => Some(s@),
        None => None,
    };
    let mut en: Option<(i64, u64)> = None;
    let mut i: usize = 0;
    assert(ks@.take(0) =~= Seq::<(i64, u64)>::empty());
    while i < ks.len()
        invariant
            i <= ks@.len(),
            iz == (match izinli {
                Some(s) => Some(s@),
                None => None,
            }),
            en == en_ustteki(ks@.take(i as int), iz),
        decreases ks@.len() - i,
    {
        let x = ks[i];
        assert(ks@.take(i + 1).drop_last() =~= ks@.take(i as int));
        assert(ks@.take(i + 1).last() == x);
        if izinli_mi(izinli, x.1) {
            en = match en {
                Some(g) => if x.0 < g.0 {
                    Some(x)
                } else {
                    Some(g)
                },
                None => Some(x),
            };
        }
        i += 1;
    }
    assert(ks@.take(i as int) =~= ks@);
    en
}

/// Haber ve hoş geldin için kanal: ayarlanmış haber kanalı, yoksa sunuculardan seçilen.
pub fn varsayilan_kanal(
    haber_kanali: Option<u64>,
    sunucu: Option<u64>,
    izinli: &Option<HashSet<u64>>,
    sunucular: &Vec<SunucuBilgisi>,
) -> (r: Option<u64>)
    ensures
        r == match haber_kanali {
            Some(k) => Some(k),
            None => sunuculardan(
                sunucular@.map_values(|s: SunucuBilgisi| sunucu_modeli(s)),
                sunucu,
                match izinli {
                    Some(s) => Some(s@),
                    None => None,
                },
            ),
        },
{
    if let Some(k) = haber_kanali {
        return Some(k);
    }
    let ghost ss = sunucular@.map_values(|s: SunucuBilgisi| sunucu_modeli(s));
    let ghost iz = match izinli {
        Some(s) => Some(s@),
        None => None,
    };
    let mut i: usize = 0;
    assert(ss.skip(0) =~= ss);
    while i < sunucular.len()
        invariant
            i <= sunucular@.len(),
            ss == sunucular@.map_values(|s: SunucuBilgisi| sunucu_modeli(s)),
            iz == (match izinli {
                Some(s) => Some(s@),
                None => None,
            }),
            sunuculardan(ss, sunucu, iz) == sunuculardan(ss.skip(i as int), sunucu, iz),
            haber_kanali is None,
        decreases sunucular@.len() - i,
    {
        let s = &sunucular[i];
        assert(ss.skip(i as int)[0] == sunucu_modeli(*s));
        assert(ss.skip(i as int).drop_first() =~= ss.skip(i + 1));
        let atla = match sunucu {
            Some(g) => g != s.id,
            None => false,
        };
        if !atla {
            match s.sistem_kanali {
                Some(k) => {
                    if izinli_mi(izinli, k) {
                        return Some(k);
                    }
                },
                None => {},
            }
            match en_ustteki_bul(&s.metin_kanallari, izinli) {
                Some(x) => {
                    return Some(x.1);
                },
                None => {},
            }
        }
        i += 1;
    }
    None
}

// ---------- olaylar ----------

/// Kullanıcının görünen adı: genel ad varsa o, yoksa kullanıcı adı.
pub fn ad(genel_ad: Option<String>, kullanici_adi: String) -> (r: String)
    ensures
        r@ == match genel_ad {
            Some(g) => g@,
            None => kullanici_adi@,
        },
{
    match genel_ad {
        Some(g) => g,
        None => kullanici_adi,
    }
}

/// Tepki emojisi: Unicode emoji olduğu gibi, özel emoji ":ad:", adı bilinmeyen özel emoji
/// "bilinmeyen emoji".
pub enum TepkiEmojisi {
    Unicode(String),
    Ozel(Option<String>),
}

pub fn reaction_label(emoji: &TepkiEmojisi) -> (r: String)
    ensures
        r@ == match emoji {
            TepkiEmojisi::Unicode(s) => s@,
            TepkiEmojisi::Ozel(Some(n)) => ":"@ + n@ + ":"@,
            TepkiEmojisi::Ozel(None) => "bilinmeyen emoji"@,
        },
{
    match emoji {
        TepkiEmojisi::Unicode(s) => s.clone(),
        TepkiEmojisi::Ozel(Some(n)) => {
            let mut v: Vec<char> = Vec::new();
            ekle_metin(&mut v, ":");
            ekle_metin(&mut v, n.as_str());
            ekle_metin(&mut v, ":");
            metne(&v)
        },
        TepkiEmojisi::Ozel(None) => "bilinmeyen emoji".to_owned(),
    }
}

/// Botun kendi mesajına verilen tepkinin satırı.
pub open spec fn tepki_metni_spec(emoji: Seq<char>, mesaj: Seq<char>) -> Seq<char> {
    "(tepki "@ + emoji + ") \""@ + mesaj + "\" mesajına tepki verdi"@
}

/// Tepki, mesaj gibi kayda geçer: hafızaya, açık sohbetin geçmişine (cevap tetiklemez) ve
/// kanal notuna. Kanal dosyasının yeni içeriği döner.
pub fn tepkiyi_kaydet(d: &mut Durum, kanal: u64, isim: &str, emoji: &str, kisa_mesaj: &str) -> (r: String)
    ensures
        ({
            let metin = tepki_metni_spec(emoji@, kisa_mesaj@);
            let satir = isim@ + ": "@ + metin;
            &&& hafiza_satirlari(*final(d)) == {
                let h = hafiza_satirlari(*old(d)).push(satir);
                if h.len() > crate::ayarlar::HAFIZA_BOYU {
                    h.drop_first()
                } else {
                    h
                }
            }
            &&& !old(d).sohbetler@.contains_key(kanal) ==> final(d).sohbetler@ == old(d).sohbetler@
            &&& old(d).sohbetler@.contains_key(kanal) ==> {
                let o = old(d).sohbetler@[kanal];
                let s = final(d).sohbetler@[kanal];
                &&& final(d).sohbetler@ == old(d).sohbetler@.insert(kanal, s)
                &&& gecmis_modeli(s.gecmis@) == kullanici_eklenmis(gecmis_modeli(o.gecmis@), satir)
                &&& s.gelen == o.gelen && s.sayac == o.sayac && s.hackli == o.hackli
                &&& s.son_mesaj == o.son_mesaj
            }
            &&& kanal_satirlari(*final(d), kanal) == son_n(
                kanal_satirlari(*old(d), kanal).push(satir),
                crate::ayarlar::KANAL_GECMIS as nat,
            )
            &&& r@ == birlestir(kanal_satirlari(*final(d), kanal), seq!['\n'])
        }),
        final(d).bot_adi == old(d).bot_adi,
        final(d).son_aktivite@ == old(d).son_aktivite@,
{
    let mut v: Vec<char> = Vec::new();
    ekle_metin(&mut v, "(tepki ");
    ekle_metin(&mut v, emoji);
    ekle_metin(&mut v, ") \"");
    ekle_metin(&mut v, kisa_mesaj);
    ekle_metin(&mut v, "\" mesajına tepki verdi");
    let metin = metne(&v);
    hatirla(d, isim, metin.as_str());
    let satir = ad_satiri(isim, metin.as_str());
    match d.sohbetler.remove(&kanal) {
        Some(mut s) => {
            let ghost g0 = gecmis_modeli(s.gecmis@);
            s.gecmis.push(kullanici(satir.as_str()));
            assert(gecmis_modeli(s.gecmis@) =~= g0.push((Rol::Kullanici, satir@)));
            if s.gecmis.len() > SOHBET_BOYU {
                let fazla = s.gecmis.len() - SOHBET_BOYU;
                let ghost g1 = gecmis_modeli(s.gecmis@);
                let kalan = s.gecmis.split_off(fazla);
                s.gecmis = kalan;
                assert(gecmis_modeli(s.gecmis@) =~= g1.skip(fazla as int));
            }
            d.sohbetler.insert(kanal, s);
        },
        None => {},
    }
    kanal_not(d, kanal, satir)
}

/// Unix zamanı (saniye): saatin verdiği süre yoksa 0.
pub fn unix_saniye(sure: Option<u64>) -> (r: i64)
    ensures
        r == match sure {
            Some(s) => s as i64,
            None => 0,
        },
{
    match sure {
        Some(s) => s as i64,
        None => 0,
    }
}

/// `SystemTime::now().duration_since(UNIX_EPOCH)` saniye olarak; saat geriye gitmişse yok.
/// Sonuç saate bağlıdır, hiçbir şey söylenmez.
#[verifier::external_body]
fn sistem_saati() -> (r: Option<u64>) {
    std::time::SystemTime::now().duration_since(std::time::UNIX_EPOCH).ok().map(|d| d.as_secs())
}

/// Şimdiki Unix zamanı (saniye); saat okunamazsa 0.
pub fn simdi_unix() -> (r: i64) {
    unix_saniye(sistem_saati())
}

} // verus!
