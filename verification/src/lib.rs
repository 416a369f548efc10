//! Metin, sohbet ve akış mantığı: Discord botunun doğrulanmış çekirdeği.

pub mod ayarlar;
pub mod metin;
pub mod bolme;
pub mod yardimci;
pub mod protokol;
pub mod gundem;
pub mod akis;
pub mod sohbet;
pub mod karar;
pub mod tur;
pub mod gonderim;
pub mod istek;
pub mod ayiklama;
pub mod sistem;
pub mod gunluk;
pub mod arastirma;
pub mod kurulum;
pub mod tarama;
pub mod kapanis;
pub mod dongu;
pub mod ajan;
pub mod akis_okuyucu;
pub mod ozet;
pub mod olay;
pub mod istem;
pub mod yasalar;
